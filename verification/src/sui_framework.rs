//! The few types of the Sui framework package (`0x2`) that the perpetuals types
//! refer to, and their type tags.
use vstd::prelude::*;

use core::marker::PhantomData;

use crate::type_tag::{
    check_struct_header, is_valid_identifier, lemma_type_tags_model, small_address,
    struct_header_error, sui_framework_address, type_param_error, Address, Identifier,
    MoveInstance, MoveStructTag, MoveType, MoveTypeTag, StructTag, StructTagError,
    StructTagErrorModel, StructTagModel, TypeParamsError, TypeTag, TypeTagModel,
};

verus! {

/// An object ID (`0x2::object::ID`).
#[derive(Clone, Copy, Debug, PartialEq, Eq)]
pub struct ID {
    pub bytes: Address,
}

/// The globally unique ID of an object (`0x2::object::UID`).
#[derive(Clone, Copy, Debug, PartialEq, Eq)]
pub struct UID {
    pub id: ID,
}

impl MoveType for ID {
    type TypeTag = IDTypeTag;
}

impl ID {
    /// The tag of `ID` as declared in the module `module` of the package at
    /// `address`.
    pub fn type_(address: Address, module: Identifier) -> (tag: IDTypeTag)
        ensures
            tag.address == address,
            tag.module@ == module@,
    {
        IDTypeTag { address, module }
    }

    /// `self`, with its type as declared in the module `module` of the
    /// package at `address`.
    pub fn move_instance(self, address: Address, module: Identifier) -> (instance: MoveInstance<
        ID,
    >)
        ensures
            instance.type_.address == address,
            instance.type_.module@ == module@,
            instance.value == self,
    {
        MoveInstance { type_: ID::type_(address, module), value: self }
    }
}

/// Storable balance of the coin `T` (`0x2::balance::Balance<T>`).
#[derive(Debug, PartialEq, Eq)]
pub struct Balance<T> {
    pub value: u64,
    /// The coin type, which the balance only names.
    pub t: PhantomData<T>,
}

/// The native coin of Sui (`0x2::sui::SUI`).
#[derive(Clone, Copy, Debug, PartialEq, Eq)]
pub struct SUI {
    pub dummy_field: bool,
}

/// Internal object used for storing the field and value
/// (`0x2::dynamic_field::Field<Name, Value>`).
#[derive(Clone, Debug, PartialEq, Eq)]
pub struct Field<Name, Value> {
    /// Determined by the hash of the object ID, the field name value and it's type,
    /// i.e. hash(parent.id || name || Name)
    pub id: UID,
    /// The value for the name of this field
    pub name: Name,
    /// The value bound to this field
    pub value: Value,
}

/// The name of a dynamic object field
/// (`0x2::dynamic_object_field::Wrapper<Name>`).
#[derive(Clone, Debug, PartialEq, Eq)]
pub struct Wrapper<Name> {
    pub name: Name,
}

/// The tag of `0x2::dynamic_field::Field<Name, Value>`, a dynamic field of an
/// object, holding the tags of its name and value types.
#[derive(Clone, Debug, PartialEq, Eq, Hash, PartialOrd, Ord)]
pub struct FieldTypeTag<K, V> {
    pub name: K,
    pub value: V,
}

/// The tag of `0x2::dynamic_object_field::Wrapper<Name>`, the name of a
/// dynamic object field, holding the tag of the wrapped name type.
#[derive(Clone, Debug, PartialEq, Eq, Hash, PartialOrd, Ord)]
pub struct WrapperTypeTag<N> {
    pub name: N,
}

/// The tag of `ID`. Its declaration fixes neither address nor module, only
/// the name `ID`.
#[derive(Clone, Debug, PartialEq, Eq, Hash, PartialOrd, Ord)]
pub struct IDTypeTag {
    pub address: Address,
    pub module: Identifier,
}

/// The struct tag `0x2::dynamic_field::Field<name, value>`.
pub open spec fn field_model(name: TypeTagModel, value: TypeTagModel) -> StructTagModel {
    StructTagModel {
        address: small_address(2),
        module: dynamic_field_module(),
        name: "Field"@,
        type_params: seq![name, value],
    }
}

/// The struct tag `0x2::dynamic_object_field::Wrapper<name>`.
pub open spec fn wrapper_model(name: TypeTagModel) -> StructTagModel {
    StructTagModel {
        address: small_address(2),
        module: dynamic_object_field_module(),
        name: "Wrapper"@,
        type_params: seq![name],
    }
}

/// The struct tag `address::module::ID`.
pub open spec fn id_model(address: Seq<u8>, module: Seq<char>) -> StructTagModel {
    StructTagModel { address, module, name: "ID"@, type_params: Seq::empty() }
}

/// The module `dynamic_field`, as a sequence of characters.
pub open spec fn dynamic_field_module() -> Seq<char> {
    "dynamic_field"@
}

/// The module `dynamic_object_field`, as a sequence of characters.
pub open spec fn dynamic_object_field_module() -> Seq<char> {
    "dynamic_object_field"@
}

impl<K: MoveTypeTag, V: MoveTypeTag> MoveStructTag for FieldTypeTag<K, V> {
    open spec fn struct_model(&self) -> StructTagModel {
        field_model(self.name.model(), self.value.model())
    }

    open spec fn check_struct(tag: StructTagModel) -> Option<StructTagErrorModel> {
        match struct_header_error(
            tag,
            Some(small_address(2)),
            Some(dynamic_field_module()),
            "Field"@,
            2,
        ) {
            Some(e) => Some(e),
            None => match V::check(tag.type_params[1]) {
                Some(e) => Some(type_param_error(e)),
                None => match K::check(tag.type_params[0]) {
                    Some(e) => Some(type_param_error(e)),
                    None => None,
                },
            },
        }
    }

    proof fn lemma_accepts_own_struct_model(&self) {
        self.name.lemma_accepts_own_model();
        self.value.lemma_accepts_own_model();
    }

    fn to_struct_tag(&self) -> (tag: StructTag) {
        proof {
            lemma_static_identifiers();
        }
        let mut type_params: Vec<TypeTag> = Vec::new();
        type_params.push(self.name.to_type_tag());
        type_params.push(self.value.to_type_tag());
        let tag = StructTag {
            address: sui_framework_address(),
            module: Identifier::from_static("dynamic_field"),
            name: Identifier::from_static("Field"),
            type_params,
        };
        proof {
            lemma_type_tags_model(tag.type_params@);
            assert(tag@.type_params =~= seq![self.name.model(), self.value.model()]);
        }
        tag
    }

    fn from_struct_tag(tag: StructTag) -> (result: Result<Self, StructTagError>) {
        proof {
            lemma_static_identifiers();
            lemma_type_tags_model(tag.type_params@);
        }
        let header = check_struct_header(
            &tag,
            Some(sui_framework_address()),
            Some(Identifier::from_static("dynamic_field")),
            Identifier::from_static("Field"),
            2,
        );
        if let Err(e) = header {
            return Err(e);
        }
        let ghost model = tag@;
        let StructTag { address: _, module: _, name: _, type_params } = tag;
        let mut type_params = type_params;
        let ghost params = type_params@;
        let value_tag = type_params.pop().unwrap();
        let name_tag = type_params.pop().unwrap();
        assert(value_tag == params[1] && name_tag == params[0]);
        let value = match V::from_type_tag(value_tag) {
            Ok(value) => value,
            Err(e) => {
                return Err(StructTagError::TypeParams(TypeParamsError::TypeTag(Box::new(e))));
            },
        };
        let name = match K::from_type_tag(name_tag) {
            Ok(name) => name,
            Err(e) => {
                return Err(StructTagError::TypeParams(TypeParamsError::TypeTag(Box::new(e))));
            },
        };
        let typed = FieldTypeTag { name, value };
        proof {
            assert(typed.struct_model().type_params =~= model.type_params);
        }
        Ok(typed)
    }
}

impl<N: MoveTypeTag> MoveStructTag for WrapperTypeTag<N> {
    open spec fn struct_model(&self) -> StructTagModel {
        wrapper_model(self.name.model())
    }

    open spec fn check_struct(tag: StructTagModel) -> Option<StructTagErrorModel> {
        match struct_header_error(
            tag,
            Some(small_address(2)),
            Some(dynamic_object_field_module()),
            "Wrapper"@,
            1,
        ) {
            Some(e) => Some(e),
            None => match N::check(tag.type_params[0]) {
                Some(e) => Some(type_param_error(e)),
                None => None,
            },
        }
    }

    proof fn lemma_accepts_own_struct_model(&self) {
        self.name.lemma_accepts_own_model();
    }

    fn to_struct_tag(&self) -> (tag: StructTag) {
        proof {
            lemma_static_identifiers();
        }
        let mut type_params: Vec<TypeTag> = Vec::new();
        type_params.push(self.name.to_type_tag());
        let tag = StructTag {
            address: sui_framework_address(),
            module: Identifier::from_static("dynamic_object_field"),
            name: Identifier::from_static("Wrapper"),
            type_params,
        };
        proof {
            lemma_type_tags_model(tag.type_params@);
            assert(tag@.type_params =~= seq![self.name.model()]);
        }
        tag
    }

    fn from_struct_tag(tag: StructTag) -> (result: Result<Self, StructTagError>) {
        proof {
            lemma_static_identifiers();
            lemma_type_tags_model(tag.type_params@);
        }
        let header = check_struct_header(
            &tag,
            Some(sui_framework_address()),
            Some(Identifier::from_static("dynamic_object_field")),
            Identifier::from_static("Wrapper"),
            1,
        );
        if let Err(e) = header {
            return Err(e);
        }
        let ghost model = tag@;
        let StructTag { address: _, module: _, name: _, type_params } = tag;
        let mut type_params = type_params;
        let ghost params = type_params@;
        let name_tag = type_params.pop().unwrap();
        assert(name_tag == params[0]);
        let name = match N::from_type_tag(name_tag) {
            Ok(name) => name,
            Err(e) => {
                return Err(StructTagError::TypeParams(TypeParamsError::TypeTag(Box::new(e))));
            },
        };
        let typed = WrapperTypeTag { name };
        proof {
            assert(typed.struct_model().type_params =~= model.type_params);
        }
        Ok(typed)
    }
}

impl MoveStructTag for IDTypeTag {
    open spec fn struct_model(&self) -> StructTagModel {
        id_model(self.address@, self.module@)
    }

    open spec fn check_struct(tag: StructTagModel) -> Option<StructTagErrorModel> {
        struct_header_error(tag, None, None, "ID"@, 0)
    }

    proof fn lemma_accepts_own_struct_model(&self) {
    }

    fn to_struct_tag(&self) -> (tag: StructTag) {
        proof {
            lemma_static_identifiers();
        }
        let tag = StructTag {
            address: self.address,
            module: self.module.clone(),
            name: Identifier::from_static("ID"),
            type_params: Vec::new(),
        };
        proof {
            assert(tag@.type_params =~= Seq::<TypeTagModel>::empty());
        }
        tag
    }

    fn from_struct_tag(tag: StructTag) -> (result: Result<Self, StructTagError>) {
        proof {
            lemma_static_identifiers();
            lemma_type_tags_model(tag.type_params@);
        }
        let header = check_struct_header(&tag, None, None, Identifier::from_static("ID"), 0);
        if let Err(e) = header {
            return Err(e);
        }
        let ghost model = tag@;
        let StructTag { address, module, name: _, type_params: _ } = tag;
        let typed = IDTypeTag { address, module };
        proof {
            assert(typed.struct_model().type_params =~= model.type_params);
        }
        Ok(typed)
    }
}

/// The identifiers that the framework tags fix are valid.
proof fn lemma_static_identifiers()
    ensures
        is_valid_identifier("dynamic_field"@),
        is_valid_identifier("Field"@),
        is_valid_identifier("dynamic_object_field"@),
        is_valid_identifier("Wrapper"@),
        is_valid_identifier("ID"@),
{
    reveal_strlit("dynamic_field");
    reveal_strlit("Field");
    reveal_strlit("dynamic_object_field");
    reveal_strlit("Wrapper");
    reveal_strlit("ID");
}

} // verus!
