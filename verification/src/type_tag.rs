//! Move type tags: the runtime names of Move types.
//!
//! A [`TypeTag`] names any Move type and a [`StructTag`] names a Move struct by
//! the address of its package, its module, its name and its type arguments.
//! Each value has a mathematical model ([`TypeTagModel`], [`StructTagModel`])
//! that the contracts of this crate speak of.
use vstd::prelude::*;
use vstd::std_specs::cmp::PartialEqSpecImpl;

verus! {

// =============================================================================
//  Address
// =============================================================================

/// A 32-byte Sui address, the location of a package or an object.
#[derive(Clone, Copy, Debug, Hash, PartialOrd, Ord)]
pub struct Address {
    pub bytes: [u8; 32],
}

impl View for Address {
    type V = Seq<u8>;

    open spec fn view(&self) -> Seq<u8> {
        self.bytes@
    }
}

impl Address {
    /// The address made of `bytes`.
    pub fn new(bytes: [u8; 32]) -> (address: Address)
        ensures
            address@ == bytes@,
    {
        Address { bytes }
    }

    /// Whether the two addresses hold the same bytes.
    pub fn same_as(&self, other: &Address) -> (same: bool)
        ensures
            same == (self@ == other@),
    {
        let mut i: usize = 0;
        while i < 32
            invariant
                i <= 32,
                self@.len() == 32,
                other@.len() == 32,
                forall|j: int| 0 <= j < i ==> self@[j] == other@[j],
            decreases 32 - i,
        {
            if self.bytes[i] != other.bytes[i] {
                return false;
            }
            i = i + 1;
        }
        assert(self@ =~= other@);
        true
    }
}

impl PartialEq for Address {
    fn eq(&self, other: &Self) -> (same: bool) {
        self.same_as(other)
    }
}

impl PartialEqSpecImpl for Address {
    open spec fn obeys_eq_spec() -> bool {
        true
    }

    open spec fn eq_spec(&self, other: &Address) -> bool {
        self@ == other@
    }
}

impl Eq for Address {}

/// The 32 bytes of the address `0x...0n` whose last byte is `n` and whose
/// other bytes are zero.
pub open spec fn small_address(n: u8) -> Seq<u8> {
    Seq::new(32, |i: int| if i == 31 { n } else { 0u8 })
}

// =============================================================================
//  Identifier
// =============================================================================

/// An ASCII letter.
pub open spec fn is_ascii_letter(c: char) -> bool {
    ('a' <= c && c <= 'z') || ('A' <= c && c <= 'Z')
}

/// A character that may follow the first one in an identifier.
pub open spec fn is_identifier_char(c: char) -> bool {
    c == '_' || is_ascii_letter(c) || ('0' <= c && c <= '9')
}

/// A valid Move identifier: at most 128 characters, the first an ASCII letter,
/// or an underscore followed by at least one more character, and the rest
/// letters, digits or underscores.
pub open spec fn is_valid_identifier(s: Seq<char>) -> bool {
    &&& 1 <= s.len() <= 128
    &&& (is_ascii_letter(s[0]) || (s[0] == '_' && s.len() >= 2))
    &&& forall|i: int| 1 <= i < s.len() ==> is_identifier_char(#[trigger] s[i])
}

/// The name of a Move module, struct or function. Always a valid identifier.
#[derive(Debug, Hash, PartialOrd, Ord)]
pub struct Identifier {
    inner: String,
}

impl View for Identifier {
    type V = Seq<char>;

    closed spec fn view(&self) -> Seq<char> {
        self.inner@
    }
}

/// The string is no valid Move identifier; it is kept.
#[derive(Debug, PartialEq, Eq)]
pub struct InvalidIdentifierError(pub String);

impl Identifier {
    #[verifier::type_invariant]
    closed spec fn well_formed(self) -> bool {
        is_valid_identifier(self.inner@)
    }

    /// The identifier `s`, or the error that holds `s` where `s` is no valid
    /// Move identifier.
    pub fn new(s: &str) -> (result: Result<Identifier, InvalidIdentifierError>)
        ensures
            result is Ok <==> is_valid_identifier(s@),
            result matches Ok(id) ==> id@ == s@,
            result matches Err(e) ==> e.0@ == s@,
    {
        if identifier_is_valid(s) {
            Ok(Identifier { inner: String::from_str(s) })
        } else {
            Err(InvalidIdentifierError(String::from_str(s)))
        }
    }

    /// The identifier `s`, which the caller knows to be valid.
    pub fn from_static(s: &'static str) -> (id: Identifier)
        requires
            is_valid_identifier(s@),
        ensures
            id@ == s@,
    {
        Identifier { inner: String::from_str(s) }
    }

    /// The identifier as a string, which is a valid Move identifier.
    pub fn as_str(&self) -> (s: &str)
        ensures
            s@ == self@,
            is_valid_identifier(s@),
    {
        proof {
            use_type_invariant(self);
        }
        self.inner.as_str()
    }
}

impl Clone for Identifier {
    fn clone(&self) -> (copy: Identifier)
        ensures
            copy@ == self@,
    {
        proof {
            use_type_invariant(self);
        }
        Identifier { inner: self.inner.clone() }
    }
}

impl PartialEq for Identifier {
    fn eq(&self, other: &Self) -> (same: bool) {
        self.inner == other.inner
    }
}

impl PartialEqSpecImpl for Identifier {
    open spec fn obeys_eq_spec() -> bool {
        true
    }

    open spec fn eq_spec(&self, other: &Identifier) -> bool {
        self@ == other@
    }
}

impl Eq for Identifier {}

/// Asks `af_sui_types::Identifier::new` whether `s` is a valid identifier.
/// The contract states the grammar that its parser accepts.
#[verifier::external_body]
fn identifier_is_valid(s: &str) -> (valid: bool)
    ensures
        valid == is_valid_identifier(s@),
{
    af_sui_types::Identifier::new(s).is_ok()
}

/// `af_sui_types::IdentStr::cast(s).to_owned()`: the identifier `s`. Both calls
/// panic on an invalid identifier, which `requires` leaves out.
#[verifier::external_body]
pub(crate) fn ident_str_cast(s: &'static str) -> (id: Identifier)
    requires
        is_valid_identifier(s@),
    ensures
        id@ == s@,
{
    let owned: af_sui_types::Identifier = af_sui_types::IdentStr::cast(s).to_owned();
    Identifier { inner: owned.as_str().to_string() }
}

/// `af_sui_types::SUI_FRAMEWORK_ADDRESS`, the address `0x2` of the Sui framework.
#[verifier::external_body]
pub(crate) fn sui_framework_address() -> (address: Address)
    ensures
        address@ == small_address(2),
{
    Address { bytes: af_sui_types::SUI_FRAMEWORK_ADDRESS.into_inner() }
}

// =============================================================================
//  TypeTag and StructTag
// =============================================================================

/// The name of a Move struct type: `address::module::name<type_params>`.
#[derive(Debug, PartialEq, Eq, Hash, PartialOrd, Ord)]
pub struct StructTag {
    pub address: Address,
    pub module: Identifier,
    pub name: Identifier,
    pub type_params: Vec<TypeTag>,
}

/// The name of a Move type.
#[derive(Debug, PartialEq, Eq, Hash, PartialOrd, Ord)]
pub enum TypeTag {
    U8,
    U16,
    U32,
    U64,
    U128,
    U256,
    Bool,
    Address,
    Signer,
    Vector(Box<TypeTag>),
    Struct(Box<StructTag>),
}

/// The mathematical value of a [`TypeTag`].
pub ghost enum TypeTagModel {
    U8,
    U16,
    U32,
    U64,
    U128,
    U256,
    Bool,
    Address,
    Signer,
    Vector(Box<TypeTagModel>),
    Struct(StructTagModel),
}

/// The mathematical value of a [`StructTag`].
pub ghost struct StructTagModel {
    pub address: Seq<u8>,
    pub module: Seq<char>,
    pub name: Seq<char>,
    pub type_params: Seq<TypeTagModel>,
}

/// The model of a type tag.
pub open spec fn type_tag_model(t: TypeTag) -> TypeTagModel
    decreases t,
{
    match t {
        TypeTag::U8 => TypeTagModel::U8,
        TypeTag::U16 => TypeTagModel::U16,
        TypeTag::U32 => TypeTagModel::U32,
        TypeTag::U64 => TypeTagModel::U64,
        TypeTag::U128 => TypeTagModel::U128,
        TypeTag::U256 => TypeTagModel::U256,
        TypeTag::Bool => TypeTagModel::Bool,
        TypeTag::Address => TypeTagModel::Address,
        TypeTag::Signer => TypeTagModel::Signer,
        TypeTag::Vector(inner) => TypeTagModel::Vector(Box::new(type_tag_model(*inner))),
        TypeTag::Struct(s) => TypeTagModel::Struct(struct_tag_model(*s)),
    }
}

/// The model of a struct tag.
pub open spec fn struct_tag_model(s: StructTag) -> StructTagModel
    decreases s,
{
    StructTagModel {
        address: s.address@,
        module: s.module@,
        name: s.name@,
        type_params: type_tags_model(s.type_params@),
    }
}

/// The models of a sequence of type tags, in order.
pub open spec fn type_tags_model(ts: Seq<TypeTag>) -> Seq<TypeTagModel>
    decreases ts,
{
    if ts.len() == 0 {
        Seq::empty()
    } else {
        type_tags_model(ts.drop_last()).push(type_tag_model(ts.last()))
    }
}

impl View for TypeTag {
    type V = TypeTagModel;

    open spec fn view(&self) -> TypeTagModel {
        type_tag_model(*self)
    }
}

impl View for StructTag {
    type V = StructTagModel;

    open spec fn view(&self) -> StructTagModel {
        struct_tag_model(*self)
    }
}

/// A copy of `tag`.
fn copy_type_tag(tag: &TypeTag) -> (copy: TypeTag)
    ensures
        copy@ == tag@,
    decreases tag,
{
    match tag {
        TypeTag::U8 => TypeTag::U8,
        TypeTag::U16 => TypeTag::U16,
        TypeTag::U32 => TypeTag::U32,
        TypeTag::U64 => TypeTag::U64,
        TypeTag::U128 => TypeTag::U128,
        TypeTag::U256 => TypeTag::U256,
        TypeTag::Bool => TypeTag::Bool,
        TypeTag::Address => TypeTag::Address,
        TypeTag::Signer => TypeTag::Signer,
        TypeTag::Vector(inner) => TypeTag::Vector(Box::new(copy_type_tag(inner))),
        TypeTag::Struct(s) => TypeTag::Struct(Box::new(copy_struct_tag(s))),
    }
}

/// A copy of `tag`.
fn copy_struct_tag(tag: &StructTag) -> (copy: StructTag)
    ensures
        copy@ == tag@,
    decreases tag,
{
    let mut type_params: Vec<TypeTag> = Vec::new();
    let n = tag.type_params.len();
    let mut i: usize = 0;
    while i < n
        invariant
            i <= n,
            n == tag.type_params@.len(),
            type_params@.len() == i,
            forall|j: int| 0 <= j < i ==> #[trigger] type_params@[j]@ == tag.type_params@[j]@,
        decreases n - i,
    {
        assert(decreases_to!(tag => tag.type_params@[i as int]));
        type_params.push(copy_type_tag(&tag.type_params[i]));
        i = i + 1;
    }
    let copy = StructTag {
        address: tag.address,
        module: tag.module.clone(),
        name: tag.name.clone(),
        type_params,
    };
    proof {
        lemma_type_tags_model(copy.type_params@);
        lemma_type_tags_model(tag.type_params@);
        assert forall|j: int| 0 <= j < n implies #[trigger] type_tags_model(
            copy.type_params@,
        )[j] == type_tags_model(tag.type_params@)[j] by {
            assert(copy.type_params@[j]@ == tag.type_params@[j]@);
        }
        assert(copy@.type_params =~= tag@.type_params);
    }
    copy
}

impl Clone for TypeTag {
    fn clone(&self) -> (copy: TypeTag)
        ensures
            copy@ == self@,
    {
        copy_type_tag(self)
    }
}

impl Clone for StructTag {
    fn clone(&self) -> (copy: StructTag)
        ensures
            copy@ == self@,
    {
        copy_struct_tag(self)
    }
}

/// The models of a sequence of type tags are those of its elements.
pub proof fn lemma_type_tags_model(ts: Seq<TypeTag>)
    ensures
        type_tags_model(ts).len() == ts.len(),
        forall|i: int|
            0 <= i < ts.len() ==> #[trigger] type_tags_model(ts)[i] == type_tag_model(ts[i]),
    decreases ts.len(),
{
    if ts.len() > 0 {
        lemma_type_tags_model(ts.drop_last());
    }
}

// =============================================================================
//  Errors
// =============================================================================

/// Why a type tag is not the one of a given Move type.
#[derive(Debug, PartialEq, Eq)]
pub enum TypeTagError {
    /// The tag is of another kind than the one expected, named by `expected`.
    Variant { expected: String, got: TypeTag },
    /// The tag is a struct tag, but not of the expected struct.
    StructTag(StructTagError),
}

/// Why a struct tag is not the one of a given Move struct.
#[derive(Debug, PartialEq, Eq)]
pub enum StructTagError {
    Address { expected: Address, got: Address },
    Module { expected: Identifier, got: Identifier },
    Name { expected: Identifier, got: Identifier },
    TypeParams(TypeParamsError),
}

/// Why the type arguments of a struct tag are not the expected ones.
#[derive(Debug, PartialEq, Eq)]
pub enum TypeParamsError {
    Number { expected: usize, got: usize },
    TypeTag(Box<TypeTagError>),
}

/// The mathematical value of a [`TypeTagError`].
#[allow(inconsistent_fields)]
pub ghost enum TypeTagErrorModel {
    Variant { expected: Seq<char>, got: TypeTagModel },
    StructTag(StructTagErrorModel),
}

/// The mathematical value of a [`StructTagError`].
#[allow(inconsistent_fields)]
pub ghost enum StructTagErrorModel {
    Address { expected: Seq<u8>, got: Seq<u8> },
    Module { expected: Seq<char>, got: Seq<char> },
    Name { expected: Seq<char>, got: Seq<char> },
    TypeParams(TypeParamsErrorModel),
}

/// The mathematical value of a [`TypeParamsError`].
#[allow(inconsistent_fields)]
pub ghost enum TypeParamsErrorModel {
    Number { expected: nat, got: nat },
    TypeTag(Box<TypeTagErrorModel>),
}

/// The model of a type tag error.
pub open spec fn type_tag_error_model(e: TypeTagError) -> TypeTagErrorModel
    decreases e,
{
    match e {
        TypeTagError::Variant { expected, got } => TypeTagErrorModel::Variant {
            expected: expected@,
            got: got@,
        },
        TypeTagError::StructTag(e) => TypeTagErrorModel::StructTag(struct_tag_error_model(e)),
    }
}

/// The model of a struct tag error.
pub open spec fn struct_tag_error_model(e: StructTagError) -> StructTagErrorModel
    decreases e,
{
    match e {
        StructTagError::Address { expected, got } => StructTagErrorModel::Address {
            expected: expected@,
            got: got@,
        },
        StructTagError::Module { expected, got } => StructTagErrorModel::Module {
            expected: expected@,
            got: got@,
        },
        StructTagError::Name { expected, got } => StructTagErrorModel::Name {
            expected: expected@,
            got: got@,
        },
        StructTagError::TypeParams(e) => StructTagErrorModel::TypeParams(
            type_params_error_model(e),
        ),
    }
}

/// The model of a type arguments error.
pub open spec fn type_params_error_model(e: TypeParamsError) -> TypeParamsErrorModel
    decreases e,
{
    match e {
        TypeParamsError::Number { expected, got } => TypeParamsErrorModel::Number {
            expected: expected as nat,
            got: got as nat,
        },
        TypeParamsError::TypeTag(e) => TypeParamsErrorModel::TypeTag(
            Box::new(type_tag_error_model(*e)),
        ),
    }
}

impl View for TypeTagError {
    type V = TypeTagErrorModel;

    open spec fn view(&self) -> TypeTagErrorModel {
        type_tag_error_model(*self)
    }
}

impl View for StructTagError {
    type V = StructTagErrorModel;

    open spec fn view(&self) -> StructTagErrorModel {
        struct_tag_error_model(*self)
    }
}

impl View for TypeParamsError {
    type V = TypeParamsErrorModel;

    open spec fn view(&self) -> TypeParamsErrorModel {
        type_params_error_model(*self)
    }
}

// =============================================================================
//  Checking a struct tag against a struct declaration
// =============================================================================

/// The first mismatch between the struct tag `s` and a struct declaration: its
/// package address (where the declaration fixes it), its module (likewise),
/// its name and its number of type parameters, checked in that order. `None`
/// where there is none.
pub open spec fn struct_header_error(
    s: StructTagModel,
    address: Option<Seq<u8>>,
    module: Option<Seq<char>>,
    name: Seq<char>,
    n_params: nat,
) -> Option<StructTagErrorModel> {
    if address is Some && s.address != address->0 {
        Some(StructTagErrorModel::Address { expected: address->0, got: s.address })
    } else if module is Some && s.module != module->0 {
        Some(StructTagErrorModel::Module { expected: module->0, got: s.module })
    } else if s.name != name {
        Some(StructTagErrorModel::Name { expected: name, got: s.name })
    } else if s.type_params.len() != n_params {
        Some(
            StructTagErrorModel::TypeParams(
                TypeParamsErrorModel::Number { expected: n_params, got: s.type_params.len() },
            ),
        )
    } else {
        None
    }
}

/// Checks `tag` against a struct declaration as [`struct_header_error`]
/// describes, and returns the first mismatch as an error.
pub(crate) fn check_struct_header(
    tag: &StructTag,
    address: Option<Address>,
    module: Option<Identifier>,
    name: Identifier,
    n_params: usize,
) -> (result: Result<(), StructTagError>)
    ensures
        result is Ok <==> struct_header_error(
            tag@,
            opt_address_model(address),
            opt_identifier_model(module),
            name@,
            n_params as nat,
        ) is None,
        result matches Err(e) ==> struct_header_error(
            tag@,
            opt_address_model(address),
            opt_identifier_model(module),
            name@,
            n_params as nat,
        ) == Some(e@),
{
    proof {
        lemma_type_tags_model(tag.type_params@);
    }
    if let Some(expected) = address {
        if !expected.same_as(&tag.address) {
            return Err(StructTagError::Address { expected, got: tag.address });
        }
    }
    if let Some(expected) = module {
        if !(expected == tag.module) {
            return Err(StructTagError::Module { expected, got: tag.module.clone() });
        }
    }
    if !(name == tag.name) {
        return Err(StructTagError::Name { expected: name, got: tag.name.clone() });
    }
    if tag.type_params.len() != n_params {
        return Err(
            StructTagError::TypeParams(
                TypeParamsError::Number { expected: n_params, got: tag.type_params.len() },
            ),
        );
    }
    Ok(())
}

/// The struct tag `address::module::name`, of a struct without type
/// parameters.
pub open spec fn package_struct_model(
    address: Seq<u8>,
    module: Seq<char>,
    name: Seq<char>,
) -> StructTagModel {
    StructTagModel { address, module, name, type_params: Seq::empty() }
}

/// The struct tag `address::module::name`, of a struct without type
/// parameters.
pub(crate) fn package_struct_tag(
    address: Address,
    module: &'static str,
    name: &'static str,
) -> (tag: StructTag)
    requires
        is_valid_identifier(module@),
        is_valid_identifier(name@),
    ensures
        tag@ == package_struct_model(address@, module@, name@),
{
    let tag = StructTag {
        address,
        module: Identifier::from_static(module),
        name: Identifier::from_static(name),
        type_params: Vec::new(),
    };
    assert(tag@.type_params =~= Seq::<TypeTagModel>::empty());
    tag
}

/// Checks that `tag` names the struct `module::name`, without type
/// parameters, of any package, and returns the package address.
pub(crate) fn check_package_struct(
    tag: StructTag,
    module: &'static str,
    name: &'static str,
) -> (result: Result<Address, StructTagError>)
    requires
        is_valid_identifier(module@),
        is_valid_identifier(name@),
    ensures
        result is Ok <==> struct_header_error(tag@, None, Some(module@), name@, 0) is None,
        result matches Ok(address) ==> package_struct_model(address@, module@, name@) == tag@,
        result matches Err(e) ==> struct_header_error(tag@, None, Some(module@), name@, 0)
            == Some(e@),
{
    proof {
        lemma_type_tags_model(tag.type_params@);
    }
    let header = check_struct_header(
        &tag,
        None,
        Some(Identifier::from_static(module)),
        Identifier::from_static(name),
        0,
    );
    match header {
        Ok(()) => {
            assert(tag@.type_params =~= Seq::<TypeTagModel>::empty());
            Ok(tag.address)
        },
        Err(e) => Err(e),
    }
}

/// The struct tag error that a type argument's error becomes.
pub open spec fn type_param_error(e: TypeTagErrorModel) -> StructTagErrorModel {
    StructTagErrorModel::TypeParams(TypeParamsErrorModel::TypeTag(Box::new(e)))
}

/// The model of an optional address.
pub open spec fn opt_address_model(a: Option<Address>) -> Option<Seq<u8>> {
    match a {
        Some(a) => Some(a@),
        None => None,
    }
}

/// The model of an optional identifier.
pub open spec fn opt_identifier_model(i: Option<Identifier>) -> Option<Seq<char>> {
    match i {
        Some(i) => Some(i@),
        None => None,
    }
}

// =============================================================================
//  Typed tags
// =============================================================================

/// The tag of a Move type of a known shape, holding only what the shape leaves
/// open (such as the package address or the type arguments).
///
/// It converts to the dynamic [`TypeTag`] it stands for, and back from any
/// dynamic tag of that shape.
pub trait MoveTypeTag: Sized {
    /// The dynamic type tag that `self` stands for.
    spec fn model(&self) -> TypeTagModel;

    /// The error that converting the dynamic tag `tag` gives, or `None` where
    /// `tag` has the shape of this type.
    spec fn check(tag: TypeTagModel) -> Option<TypeTagErrorModel>;

    /// The dynamic tag of a typed tag is accepted back.
    proof fn lemma_accepts_own_model(&self)
        ensures
            Self::check(self.model()) is None,
    ;

    /// The dynamic type tag that `self` stands for.
    fn to_type_tag(&self) -> (tag: TypeTag)
        ensures
            tag@ == self.model(),
    ;

    /// The typed tag that stands for `tag`, or the first mismatch between
    /// `tag` and the shape of this type.
    fn from_type_tag(tag: TypeTag) -> (result: Result<Self, TypeTagError>)
        ensures
            result is Ok <==> Self::check(tag@) is None,
            result matches Ok(typed) ==> typed.model() == tag@,
            result matches Err(e) ==> Self::check(tag@) == Some(e@),
    ;
}

/// The tag of a Move struct of a known declaration; see [`MoveTypeTag`].
pub trait MoveStructTag: Sized {
    /// The dynamic struct tag that `self` stands for.
    spec fn struct_model(&self) -> StructTagModel;

    /// The error that converting the dynamic struct tag `tag` gives, or `None`
    /// where `tag` names this struct.
    spec fn check_struct(tag: StructTagModel) -> Option<StructTagErrorModel>;

    /// The dynamic struct tag of a typed tag is accepted back.
    proof fn lemma_accepts_own_struct_model(&self)
        ensures
            Self::check_struct(self.struct_model()) is None,
    ;

    /// The dynamic struct tag that `self` stands for.
    fn to_struct_tag(&self) -> (tag: StructTag)
        ensures
            tag@ == self.struct_model(),
    ;

    /// The typed tag that stands for `tag`, or the first mismatch between
    /// `tag` and the declaration of this struct.
    fn from_struct_tag(tag: StructTag) -> (result: Result<Self, StructTagError>)
        ensures
            result is Ok <==> Self::check_struct(tag@) is None,
            result matches Ok(typed) ==> typed.struct_model() == tag@,
            result matches Err(e) ==> Self::check_struct(tag@) == Some(e@),
    ;
}

/// The error of a dynamic type tag that is no struct tag, where a struct was
/// expected.
pub open spec fn not_a_struct_error(tag: TypeTagModel) -> TypeTagErrorModel {
    TypeTagErrorModel::Variant { expected: "Struct(_)"@, got: tag }
}

impl<T: MoveStructTag> MoveTypeTag for T {
    open spec fn model(&self) -> TypeTagModel {
        TypeTagModel::Struct(self.struct_model())
    }

    open spec fn check(tag: TypeTagModel) -> Option<TypeTagErrorModel> {
        match tag {
            TypeTagModel::Struct(s) => match T::check_struct(s) {
                Some(e) => Some(TypeTagErrorModel::StructTag(e)),
                None => None,
            },
            _ => Some(not_a_struct_error(tag)),
        }
    }

    proof fn lemma_accepts_own_model(&self) {
        self.lemma_accepts_own_struct_model();
    }

    fn to_type_tag(&self) -> (tag: TypeTag) {
        TypeTag::Struct(Box::new(self.to_struct_tag()))
    }

    fn from_type_tag(tag: TypeTag) -> (result: Result<Self, TypeTagError>) {
        match tag {
            TypeTag::Struct(s) => match T::from_struct_tag(*s) {
                Ok(typed) => Ok(typed),
                Err(e) => Err(TypeTagError::StructTag(e)),
            },
            other => Err(
                TypeTagError::Variant { expected: String::from_str("Struct(_)"), got: other },
            ),
        }
    }
}

/// A Move type of this library, and the type of its typed tags.
pub trait MoveType {
    type TypeTag: MoveTypeTag;
}

impl MoveType for u64 {
    type TypeTag = U64TypeTag;
}

/// A value of a Move type together with the tag of its exact type.
#[derive(Clone, Debug, PartialEq, Eq)]
pub struct MoveInstance<T: MoveType> {
    pub type_: T::TypeTag,
    pub value: T,
}

/// The tag of the Move type `u64`.
#[derive(Clone, Copy, Debug, PartialEq, Eq, Structural, Hash, PartialOrd, Ord)]
pub struct U64TypeTag;

impl MoveTypeTag for U64TypeTag {
    open spec fn model(&self) -> TypeTagModel {
        TypeTagModel::U64
    }

    open spec fn check(tag: TypeTagModel) -> Option<TypeTagErrorModel> {
        match tag {
            TypeTagModel::U64 => None,
            _ => Some(TypeTagErrorModel::Variant { expected: "U64"@, got: tag }),
        }
    }

    proof fn lemma_accepts_own_model(&self) {
    }

    fn to_type_tag(&self) -> (tag: TypeTag) {
        TypeTag::U64
    }

    fn from_type_tag(tag: TypeTag) -> (result: Result<Self, TypeTagError>) {
        match tag {
            TypeTag::U64 => Ok(U64TypeTag),
            other => Err(TypeTagError::Variant { expected: String::from_str("U64"), got: other }),
        }
    }
}

/// Converting a typed tag to its dynamic tag and back succeeds, and gives a
/// typed tag that stands for the same dynamic tag (the `ensures` of
/// [`MoveTypeTag::from_type_tag`] adds the latter).
pub proof fn lemma_type_tag_round_trip<T: MoveTypeTag>(typed: T)
    ensures
        T::check(typed.model()) is None,
{
    typed.lemma_accepts_own_model();
}

/// Converting a typed struct tag to its dynamic struct tag and back succeeds.
pub proof fn lemma_struct_tag_round_trip<T: MoveStructTag>(typed: T)
    ensures
        T::check_struct(typed.struct_model()) is None,
{
    typed.lemma_accepts_own_struct_model();
}

} // verus!
