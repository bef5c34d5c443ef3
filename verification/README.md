# af-iperps

Move types and abort codes of Aftermath's perpetuals package, verified with Verus.

- `src/` is the verified library: the abort codes (`errors`), a model of Move
  type tags (`type_tag`), the framework tags it needs (`sui_framework`), and
  the Move structs of the perpetuals package module by module (`account`,
  `authority`, `clearing_house`, `events`, `keys`, `market`, `orderbook`,
  `ordered_map`, `position`, `registry`, `stop_orders`, `twap_orders`,
  `twap_orders_details`), with the typed tags of the structs whose
  dynamic-field types the library builds.
- `tests/` runs the library on concrete values.
- `app/` converts between the library's values and those of `af_sui_types` and
  `af_utilities`, and gives the abort enum the traits of `strum` and `num_enum`.
