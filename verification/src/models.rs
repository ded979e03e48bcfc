//! The backend-agnostic intermediate model: names with classified
//! casings, types, variables, structs, enums, functions and modules.
//!
//! Every model value is immutable once constructed; derived facts
//! (such as whether an enum is a pure unit enum) are always computed,
//! never cached.

use vstd::prelude::*;

use crate::utils::{
    is_camel_case, is_pascal_case, is_snake_case, push_char, spec_is_camel_case,
    spec_is_pascal_case, spec_is_snake_case, spec_to_camel_case, spec_to_pascal_case,
    spec_to_snake_case, to_camel_case, to_pascal_case, to_snake_case,
};

verus! {

/// The casing of a name.
#[derive(Debug, Clone, Copy, PartialEq, Eq, Hash, Structural)]
pub enum RuaCase {
    /// snake_case
    SnakeCase,
    /// camelCase
    CamelCase,
    /// PascalCase
    PascalCase,
}

/// Whether `s` is in the casing `case`.
pub open spec fn spec_case_check(case: RuaCase, s: Seq<char>) -> bool {
    match case {
        RuaCase::SnakeCase => spec_is_snake_case(s),
        RuaCase::CamelCase => spec_is_camel_case(s),
        RuaCase::PascalCase => spec_is_pascal_case(s),
    }
}

/// The conversion of `s` into the casing `case`.
pub open spec fn spec_case_convert(case: RuaCase, s: Seq<char>) -> Seq<char> {
    match case {
        RuaCase::SnakeCase => spec_to_snake_case(s),
        RuaCase::CamelCase => spec_to_camel_case(s),
        RuaCase::PascalCase => spec_to_pascal_case(s),
    }
}

/// The display name of the casing `case`.
pub open spec fn spec_case_name(case: RuaCase) -> Seq<char> {
    match case {
        RuaCase::SnakeCase => "snake_case"@,
        RuaCase::CamelCase => "camelCase"@,
        RuaCase::PascalCase => "PascalCase"@,
    }
}

impl RuaCase {
    /// Converts a string into this casing.
    pub fn convert(&self, s: &str) -> (r: String)
        ensures
            r@ == spec_case_convert(*self, s@),
    {
        match self {
            RuaCase::SnakeCase => to_snake_case(s),
            RuaCase::CamelCase => to_camel_case(s),
            RuaCase::PascalCase => to_pascal_case(s),
        }
    }

    /// Checks whether a string is in this casing.
    pub fn check(&self, s: &str) -> (r: bool)
        ensures
            r == spec_case_check(*self, s@),
    {
        match self {
            RuaCase::SnakeCase => is_snake_case(s),
            RuaCase::CamelCase => is_camel_case(s),
            RuaCase::PascalCase => is_pascal_case(s),
        }
    }

    /// The display name of this casing.
    pub fn name_str(&self) -> (r: &'static str)
        ensures
            r@ == spec_case_name(*self),
    {
        match self {
            RuaCase::SnakeCase => "snake_case",
            RuaCase::CamelCase => "camelCase",
            RuaCase::PascalCase => "PascalCase",
        }
    }
}

/// The mathematical view of a [`RuaName`].
pub struct RuaNameV {
    pub name: Seq<char>,
    pub case: RuaCase,
    pub matches_case: bool,
}

/// A name together with its classified casing; whether the string
/// actually is in that casing is checked and recorded at
/// construction, so a mismatched tag is never silently accepted.
#[derive(Debug, Clone, PartialEq, Eq, Hash)]
pub struct RuaName {
    name: String,
    case: RuaCase,
    matches_case: bool,
}

impl View for RuaName {
    type V = RuaNameV;

    closed spec fn view(&self) -> RuaNameV {
        RuaNameV { name: self.name@, case: self.case, matches_case: self.matches_case }
    }
}

/// A name is well formed when its string is in its recorded casing.
pub open spec fn spec_name_wf(n: RuaNameV) -> bool {
    spec_case_check(n.case, n.name)
}

/// The text that [`RuaName::render`] produces: the casing's display
/// name, and the name itself in parentheses.
pub open spec fn spec_render_name(n: RuaNameV) -> Seq<char> {
    spec_case_name(n.case) + "("@ + n.name + ")"@
}

impl RuaName {
    /// Creates a name with the given casing tag. The tag is recorded
    /// as given, and whether it matches the string is classified here
    /// and recorded in the value — a mismatch is tolerated but never
    /// silently accepted: [`RuaName::case_matches`] and
    /// [`RuaName::check`] report it.
    pub fn new(name: &str, case: RuaCase) -> (r: Self)
        ensures
            r@ == (RuaNameV {
                name: name@,
                case,
                matches_case: spec_case_check(case, name@),
            }),
    {
        let matches_case = case.check(name);
        Self { name: name.to_owned(), case, matches_case }
    }

    /// The verdict recorded at construction: whether the name's
    /// string was in its casing tag when the value was built.
    pub fn case_matches(&self) -> (r: bool)
        ensures
            r == self@.matches_case,
    {
        self.matches_case
    }

    /// Whether the name's string is in its recorded casing.
    pub fn check(&self) -> (r: bool)
        ensures
            r == spec_name_wf(self@),
    {
        self.case.check(self.name.as_str())
    }

    /// Converts the name into the given casing.
    pub fn convert(&self, case: RuaCase) -> (r: Self)
        ensures
            r@ == (RuaNameV {
                name: spec_case_convert(case, self@.name),
                case,
                matches_case: spec_case_check(case, spec_case_convert(case, self@.name)),
            }),
    {
        let converted = case.convert(self.name.as_str());
        RuaName::new(converted.as_str(), case)
    }

    /// The name's string.
    pub fn get_name(&self) -> (r: &str)
        ensures
            r@ == self@.name,
    {
        self.name.as_str()
    }

    /// The name's string converted into the given casing.
    pub fn get_name_with_case(&self, case: &RuaCase) -> (r: String)
        ensures
            r@ == spec_case_convert(*case, self@.name),
    {
        case.convert(self.name.as_str())
    }

    /// Renders the name and its casing as text.
    pub fn render(&self) -> (r: String)
        ensures
            r@ == spec_render_name(self@),
    {
        let mut r = String::new();
        r.append(self.case.name_str());
        r.append("(");
        r.append(self.name.as_str());
        r.append(")");
        proof {
            assert(r@ =~= spec_render_name(self@));
        }
        r
    }
}

/// Represents something that has a name.
pub trait RuaNamed {
    /// Returns the name of the item.
    fn name(&self) -> &RuaName;
}

/// The kind of a module.
#[derive(Debug, Clone, Copy, PartialEq, Eq, Hash, Structural)]
pub enum RuaModType {
    /// The root module of a build unit.
    CrateModule,
    /// A nested module resolved to its own file.
    FileModule,
}

/// The mathematical view of a [`RuaMod`].
pub struct RuaModV {
    pub name: RuaNameV,
    pub ty: RuaModType,
    pub root_path: Option<Seq<char>>,
    pub is_public: bool,
}

/// A module of the project being traversed.
#[derive(Debug, Clone, PartialEq, Eq, Hash)]
pub struct RuaMod {
    /// The name of the module; modules are snake_case by convention.
    name: RuaName,
    /// The kind of the module.
    ty: RuaModType,
    /// The filesystem root of the module, once resolved.
    root_path: Option<String>,
    /// Whether the module is declared public.
    is_public: bool,
}

impl View for RuaMod {
    type V = RuaModV;

    closed spec fn view(&self) -> RuaModV {
        RuaModV {
            name: self.name@,
            ty: self.ty,
            root_path: self.root_path.deep_view(),
            is_public: self.is_public,
        }
    }
}

impl RuaNamed for RuaMod {
    fn name(&self) -> (r: &RuaName)
        ensures
            r@ == self@.name,
    {
        &self.name
    }
}

impl RuaMod {
    /// Creates a module; its name is tagged snake_case, the casing
    /// modules conventionally have.
    pub fn new(name: &str, ty: RuaModType, root_path: Option<String>, is_public: bool) -> (r: Self)
        ensures
            r@ == (RuaModV {
                name: RuaNameV {
                    name: name@,
                    case: RuaCase::SnakeCase,
                    matches_case: spec_case_check(RuaCase::SnakeCase, name@),
                },
                ty,
                root_path: root_path.deep_view(),
                is_public,
            }),
    {
        Self { name: RuaName::new(name, RuaCase::SnakeCase), ty, root_path, is_public }
    }

    /// The kind of the module.
    pub fn ty(&self) -> (r: &RuaModType)
        ensures
            *r == self@.ty,
    {
        &self.ty
    }

    /// The filesystem root of the module, once resolved.
    pub fn root_path(&self) -> (r: &Option<String>)
        ensures
            r.deep_view() == self@.root_path,
    {
        &self.root_path
    }

    /// The module value for a nested module declaration: a file
    /// module, not yet resolved to a root, with the declaration's
    /// visibility.
    pub fn from_node(m: &crate::nodes::ModNode) -> (r: Self)
        ensures
            r@ == (RuaModV {
                name: RuaNameV {
                    name: m@.name,
                    case: RuaCase::SnakeCase,
                    matches_case: spec_case_check(RuaCase::SnakeCase, m@.name),
                },
                ty: RuaModType::FileModule,
                root_path: None,
                is_public: m@.is_pub,
            }),
    {
        Self::new(m.name.as_str(), RuaModType::FileModule, None, m.is_pub)
    }
}

/// The mathematical view of a [`RuaType`].
#[verifier::ext_equal]
pub enum RuaTypeV {
    I8,
    I16,
    I32,
    I64,
    I128,
    U8,
    U16,
    U32,
    U64,
    U128,
    F32,
    F64,
    Bool,
    Isize,
    Usize,
    Char,
    Str,
    String,
    Slice(RuaSliceV),
    Array(RuaArrayV),
    Tuple(RuaTupleV),
    Struct(RuaStructV),
    Enum(RuaEnumV),
    Pointer(RuaPointerV),
    Reference(RuaReferenceV),
    Fn(RuaFnV),
    Custom(RuaNameV),
    Unit,
}

/// A type of the modeled language.
#[derive(Debug, PartialEq, Eq, Hash)]
#[non_exhaustive]
pub enum RuaType {
    /// The 8-bit signed integer type.
    I8,
    /// The 16-bit signed integer type.
    I16,
    /// The 32-bit signed integer type.
    I32,
    /// The 64-bit signed integer type.
    I64,
    /// The 128-bit signed integer type.
    I128,
    /// The 8-bit unsigned integer type.
    U8,
    /// The 16-bit unsigned integer type.
    U16,
    /// The 32-bit unsigned integer type.
    U32,
    /// The 64-bit unsigned integer type.
    U64,
    /// The 128-bit unsigned integer type.
    U128,
    /// The 32-bit floating point type.
    F32,
    /// The 64-bit floating point type.
    F64,
    /// The boolean type.
    Bool,
    /// The platform-sized signed integer type.
    Isize,
    /// The platform-sized unsigned integer type.
    Usize,
    /// The character type.
    Char,
    /// The string-slice type.
    Str,
    /// The owned-string type.
    String,
    /// A slice type.
    Slice(RuaSlice),
    /// A fixed-size array type.
    Array(RuaArray),
    /// A tuple type.
    Tuple(RuaTuple),
    /// A struct type.
    Struct(RuaStruct),
    /// An enum type.
    Enum(RuaEnum),
    /// A raw pointer type.
    Pointer(RuaPointer),
    /// A reference type.
    Reference(RuaReference),
    /// A function type.
    Fn(RuaFn),
    /// A type recognized only by name.
    Custom(RuaName),
    /// The unit type.
    Unit,
}

impl View for RuaType {
    type V = RuaTypeV;

    open spec fn view(&self) -> RuaTypeV
        decreases self,
    {
        match self {
            RuaType::I8 => RuaTypeV::I8,
            RuaType::I16 => RuaTypeV::I16,
            RuaType::I32 => RuaTypeV::I32,
            RuaType::I64 => RuaTypeV::I64,
            RuaType::I128 => RuaTypeV::I128,
            RuaType::U8 => RuaTypeV::U8,
            RuaType::U16 => RuaTypeV::U16,
            RuaType::U32 => RuaTypeV::U32,
            RuaType::U64 => RuaTypeV::U64,
            RuaType::U128 => RuaTypeV::U128,
            RuaType::F32 => RuaTypeV::F32,
            RuaType::F64 => RuaTypeV::F64,
            RuaType::Bool => RuaTypeV::Bool,
            RuaType::Isize => RuaTypeV::Isize,
            RuaType::Usize => RuaTypeV::Usize,
            RuaType::Char => RuaTypeV::Char,
            RuaType::Str => RuaTypeV::Str,
            RuaType::String => RuaTypeV::String,
            RuaType::Slice(s) => RuaTypeV::Slice(s.view()),
            RuaType::Array(a) => RuaTypeV::Array(a.view()),
            RuaType::Tuple(t) => RuaTypeV::Tuple(t.view()),
            RuaType::Struct(s) => RuaTypeV::Struct(s.view()),
            RuaType::Enum(e) => RuaTypeV::Enum(e.view()),
            RuaType::Pointer(p) => RuaTypeV::Pointer(p.view()),
            RuaType::Reference(rf) => RuaTypeV::Reference(rf.view()),
            RuaType::Fn(f) => RuaTypeV::Fn(f.view()),
            RuaType::Custom(n) => RuaTypeV::Custom(n@),
            RuaType::Unit => RuaTypeV::Unit,
        }
    }
}

impl DeepView for RuaType {
    type V = RuaTypeV;

    open spec fn deep_view(&self) -> RuaTypeV {
        self.view()
    }
}

/// The views of a list of model types, elementwise.
pub open spec fn rua_type_views(s: Seq<RuaType>) -> Seq<RuaTypeV>
    decreases s,
{
    if s.len() == 0 {
        Seq::empty()
    } else {
        seq![s[0]@] + rua_type_views(s.drop_first())
    }
}

/// `rua_type_views` maps the view over the sequence, elementwise.
pub proof fn lemma_rua_type_views(s: Seq<RuaType>)
    ensures
        rua_type_views(s).len() == s.len(),
        forall|i: int| 0 <= i < s.len() ==> #[trigger] rua_type_views(s)[i] == s[i]@,
    decreases s,
{
    if s.len() > 0 {
        lemma_rua_type_views(s.drop_first());
        assert(rua_type_views(s) == seq![s[0]@] + rua_type_views(s.drop_first()));
        assert forall|i: int| 0 <= i < s.len() implies #[trigger] rua_type_views(s)[i]
            == s[i]@ by {
            if i == 0 {
                assert(rua_type_views(s)[0] == seq![s[0]@][0]);
            } else {
                assert(rua_type_views(s)[i] == rua_type_views(s.drop_first())[i - 1]);
                assert(s.drop_first()[i - 1] == s[i]);
            }
        }
    }
}

/// The mathematical view of a [`RuaVar`].
pub struct RuaVarV {
    pub name: RuaNameV,
    pub ty: Box<RuaTypeV>,
}

/// A variable: a name paired with a type.
#[derive(Debug, PartialEq, Eq, Hash)]
pub struct RuaVar {
    /// The name of the variable.
    pub name: RuaName,
    /// The type of the variable.
    pub ty: Box<RuaType>,
}

impl View for RuaVar {
    type V = RuaVarV;

    open spec fn view(&self) -> RuaVarV
        decreases self,
    {
        RuaVarV { name: self.name@, ty: Box::new((*self.ty).view()) }
    }
}

impl DeepView for RuaVar {
    type V = RuaVarV;

    open spec fn deep_view(&self) -> RuaVarV {
        self.view()
    }
}

/// The views of a list of variables, elementwise.
pub open spec fn rua_var_views(s: Seq<RuaVar>) -> Seq<RuaVarV>
    decreases s,
{
    if s.len() == 0 {
        Seq::empty()
    } else {
        seq![s[0]@] + rua_var_views(s.drop_first())
    }
}

/// `rua_var_views` maps the view over the sequence, elementwise.
pub proof fn lemma_rua_var_views(s: Seq<RuaVar>)
    ensures
        rua_var_views(s).len() == s.len(),
        forall|i: int| 0 <= i < s.len() ==> #[trigger] rua_var_views(s)[i] == s[i]@,
    decreases s,
{
    if s.len() > 0 {
        lemma_rua_var_views(s.drop_first());
        assert(rua_var_views(s) == seq![s[0]@] + rua_var_views(s.drop_first()));
        assert forall|i: int| 0 <= i < s.len() implies #[trigger] rua_var_views(s)[i] == s[i]@ by {
            if i == 0 {
                assert(rua_var_views(s)[0] == seq![s[0]@][0]);
            } else {
                assert(rua_var_views(s)[i] == rua_var_views(s.drop_first())[i - 1]);
                assert(s.drop_first()[i - 1] == s[i]);
            }
        }
    }
}

/// The mathematical view of a [`RuaSlice`].
pub struct RuaSliceV {
    pub ty: Box<RuaTypeV>,
}

/// A slice type: the type of its elements.
#[derive(Debug, PartialEq, Eq, Hash)]
pub struct RuaSlice {
    /// The element type of the slice.
    pub ty: Box<RuaType>,
}

impl View for RuaSlice {
    type V = RuaSliceV;

    open spec fn view(&self) -> RuaSliceV
        decreases self,
    {
        RuaSliceV { ty: Box::new((*self.ty).view()) }
    }
}

/// The mathematical view of a [`RuaArrayLen`].
pub enum RuaArrayLenV {
    Num(usize),
    Const(Seq<char>),
}

/// The length of a fixed-size array: a literal number, or the name of
/// a constant.
#[derive(Debug, Clone, PartialEq, Eq, Hash)]
pub enum RuaArrayLen {
    /// A literal length.
    Num(usize),
    /// The name of the constant holding the length.
    Const(String),
}

impl View for RuaArrayLen {
    type V = RuaArrayLenV;

    open spec fn view(&self) -> RuaArrayLenV {
        match self {
            RuaArrayLen::Num(n) => RuaArrayLenV::Num(*n),
            RuaArrayLen::Const(c) => RuaArrayLenV::Const(c@),
        }
    }
}

/// The mathematical view of a [`RuaArray`].
pub struct RuaArrayV {
    pub ty: Box<RuaTypeV>,
    pub len: RuaArrayLenV,
}

/// A fixed-size array type: its element type and its length.
#[derive(Debug, PartialEq, Eq, Hash)]
pub struct RuaArray {
    /// The element type of the array.
    pub ty: Box<RuaType>,
    /// The length of the array.
    pub len: RuaArrayLen,
}

impl View for RuaArray {
    type V = RuaArrayV;

    open spec fn view(&self) -> RuaArrayV
        decreases self,
    {
        RuaArrayV { ty: Box::new((*self.ty).view()), len: self.len@ }
    }
}

/// The mathematical view of a [`RuaTuple`].
pub struct RuaTupleV {
    pub tys: Seq<RuaTypeV>,
}

/// A tuple type: its component types, in order.
#[derive(Debug, PartialEq, Eq, Hash)]
pub struct RuaTuple {
    /// The component types of the tuple.
    pub tys: Vec<RuaType>,
}

impl View for RuaTuple {
    type V = RuaTupleV;

    open spec fn view(&self) -> RuaTupleV
        decreases self,
    {
        RuaTupleV { tys: rua_type_views(self.tys@) }
    }
}

/// The mathematical view of a [`RuaStruct`].
pub enum RuaStructV {
    Named(RuaNamedStructV),
    Tuple(RuaTupleStructV),
    Unit(RuaUnitStructV),
}

/// A struct shape: named fields, positional fields, or no fields.
#[derive(Debug, PartialEq, Eq, Hash)]
pub enum RuaStruct {
    /// A struct with named fields.
    Named(RuaNamedStruct),
    /// A struct with positional fields.
    Tuple(RuaTupleStruct),
    /// A struct with no fields.
    Unit(RuaUnitStruct),
}

impl View for RuaStruct {
    type V = RuaStructV;

    open spec fn view(&self) -> RuaStructV
        decreases self,
    {
        match self {
            RuaStruct::Named(n) => RuaStructV::Named(n.view()),
            RuaStruct::Tuple(t) => RuaStructV::Tuple(t.view()),
            RuaStruct::Unit(u) => RuaStructV::Unit(u.view()),
        }
    }
}

impl DeepView for RuaStruct {
    type V = RuaStructV;

    open spec fn deep_view(&self) -> RuaStructV {
        self.view()
    }
}

/// The views of a list of struct shapes, elementwise.
pub open spec fn rua_struct_views(s: Seq<RuaStruct>) -> Seq<RuaStructV>
    decreases s,
{
    if s.len() == 0 {
        Seq::empty()
    } else {
        seq![s[0]@] + rua_struct_views(s.drop_first())
    }
}

/// `rua_struct_views` maps the view over the sequence, elementwise.
pub proof fn lemma_rua_struct_views(s: Seq<RuaStruct>)
    ensures
        rua_struct_views(s).len() == s.len(),
        forall|i: int| 0 <= i < s.len() ==> #[trigger] rua_struct_views(s)[i] == s[i]@,
    decreases s,
{
    if s.len() > 0 {
        lemma_rua_struct_views(s.drop_first());
        assert(rua_struct_views(s) == seq![s[0]@] + rua_struct_views(s.drop_first()));
        assert forall|i: int| 0 <= i < s.len() implies #[trigger] rua_struct_views(s)[i]
            == s[i]@ by {
            if i == 0 {
                assert(rua_struct_views(s)[0] == seq![s[0]@][0]);
            } else {
                assert(rua_struct_views(s)[i] == rua_struct_views(s.drop_first())[i - 1]);
                assert(s.drop_first()[i - 1] == s[i]);
            }
        }
    }
}

/// The name of a struct shape, whichever shape it has.
pub open spec fn spec_struct_name(s: RuaStructV) -> RuaNameV {
    match s {
        RuaStructV::Named(n) => n.name,
        RuaStructV::Tuple(t) => t.name,
        RuaStructV::Unit(u) => u.name,
    }
}

impl RuaStruct {
    /// Whether the struct shape is the unit shape.
    pub fn is_unit(&self) -> (r: bool)
        ensures
            r == (self@ matches RuaStructV::Unit(_)),
    {
        match self {
            RuaStruct::Unit(_) => true,
            _ => false,
        }
    }
}

impl RuaNamed for RuaStruct {
    fn name(&self) -> (r: &RuaName)
        ensures
            r@ == spec_struct_name(self@),
    {
        match self {
            RuaStruct::Named(n) => n.name(),
            RuaStruct::Tuple(t) => t.name(),
            RuaStruct::Unit(u) => u.name(),
        }
    }
}

/// The mathematical view of a [`RuaNamedStruct`].
pub struct RuaNamedStructV {
    pub name: RuaNameV,
    pub fields: Seq<RuaVarV>,
}

/// A struct with named fields.
#[derive(Debug, PartialEq, Eq, Hash)]
pub struct RuaNamedStruct {
    /// The name of the struct.
    pub name: RuaName,
    /// The fields of the struct, in declaration order.
    pub fields: Vec<RuaVar>,
}

impl View for RuaNamedStruct {
    type V = RuaNamedStructV;

    open spec fn view(&self) -> RuaNamedStructV
        decreases self,
    {
        RuaNamedStructV { name: self.name@, fields: rua_var_views(self.fields@) }
    }
}

impl RuaNamed for RuaNamedStruct {
    fn name(&self) -> (r: &RuaName)
        ensures
            r@ == self@.name,
    {
        &self.name
    }
}

/// The mathematical view of a [`RuaTupleStruct`].
pub struct RuaTupleStructV {
    pub name: RuaNameV,
    pub tys: Seq<RuaTypeV>,
}

/// A struct with positional fields.
#[derive(Debug, PartialEq, Eq, Hash)]
pub struct RuaTupleStruct {
    /// The name of the struct.
    pub name: RuaName,
    /// The types of the positional fields, in order.
    pub tys: Vec<RuaType>,
}

impl View for RuaTupleStruct {
    type V = RuaTupleStructV;

    open spec fn view(&self) -> RuaTupleStructV
        decreases self,
    {
        RuaTupleStructV { name: self.name@, tys: rua_type_views(self.tys@) }
    }
}

impl RuaNamed for RuaTupleStruct {
    fn name(&self) -> (r: &RuaName)
        ensures
            r@ == self@.name,
    {
        &self.name
    }
}

/// The mathematical view of a [`RuaUnitStruct`].
pub struct RuaUnitStructV {
    pub name: RuaNameV,
}

/// A struct with no fields.
#[derive(Debug, Clone, PartialEq, Eq, Hash)]
pub struct RuaUnitStruct {
    /// The name of the struct.
    pub name: RuaName,
}

impl View for RuaUnitStruct {
    type V = RuaUnitStructV;

    open spec fn view(&self) -> RuaUnitStructV {
        RuaUnitStructV { name: self.name@ }
    }
}

impl RuaNamed for RuaUnitStruct {
    fn name(&self) -> (r: &RuaName)
        ensures
            r@ == self@.name,
    {
        &self.name
    }
}

/// The mathematical view of a [`RuaEnum`].
pub struct RuaEnumV {
    pub name: RuaNameV,
    pub variants: Seq<RuaStructV>,
}

/// An enum: its name and its variants, each a struct shape.
#[derive(Debug, PartialEq, Eq, Hash)]
pub struct RuaEnum {
    /// The name of the enum.
    pub name: RuaName,
    /// The variants of the enum, in declaration order.
    pub variants: Vec<RuaStruct>,
}

impl View for RuaEnum {
    type V = RuaEnumV;

    open spec fn view(&self) -> RuaEnumV
        decreases self,
    {
        RuaEnumV { name: self.name@, variants: rua_struct_views(self.variants@) }
    }
}

impl RuaNamed for RuaEnum {
    fn name(&self) -> (r: &RuaName)
        ensures
            r@ == self@.name,
    {
        &self.name
    }
}

impl RuaEnum {
    /// Whether every variant of the enum has the unit shape.
    pub fn is_unit(&self) -> (r: bool)
        ensures
            r == (forall|i: int|
                0 <= i < self@.variants.len() ==> #[trigger] self@.variants[i] matches
                    RuaStructV::Unit(_)),
    {
        proof {
            lemma_rua_struct_views(self.variants@);
        }
        let n = self.variants.len();
        let mut i: usize = 0;
        while i < n
            invariant
                0 <= i <= n,
                n == self.variants@.len(),
                rua_struct_views(self.variants@).len() == n,
                forall|j: int|
                    0 <= j < self.variants@.len() ==> #[trigger] rua_struct_views(
                        self.variants@,
                    )[j] == self.variants@[j]@,
                forall|j: int|
                    0 <= j < i ==> #[trigger] rua_struct_views(self.variants@)[j] matches
                        RuaStructV::Unit(_),
            decreases n - i,
        {
            if !self.variants[i].is_unit() {
                proof {
                    assert(self@.variants[i as int] == self.variants@[i as int]@);
                    assert(!(self@.variants[i as int] matches RuaStructV::Unit(_)));
                }
                return false;
            }
            i = i + 1;
        }
        proof {
            assert forall|j: int|
                0 <= j < self@.variants.len() implies #[trigger] self@.variants[j] matches
                RuaStructV::Unit(_) by {
                assert(self@.variants[j] == rua_struct_views(self.variants@)[j]);
            }
        }
        true
    }
}

/// The mathematical view of a [`RuaFn`].
pub enum RuaFnV {
    Bare(RuaBareFnV),
    Fn(RuaSigFnV),
}

/// A function: either a bare signature without names, or a named
/// signature.
#[derive(Debug, PartialEq, Eq, Hash)]
pub enum RuaFn {
    /// A bare function signature, without a name.
    Bare(RuaBareFn),
    /// A named function signature.
    Fn(RuaSigFn),
}

impl View for RuaFn {
    type V = RuaFnV;

    open spec fn view(&self) -> RuaFnV
        decreases self,
    {
        match self {
            RuaFn::Bare(b) => RuaFnV::Bare(b.view()),
            RuaFn::Fn(f) => RuaFnV::Fn(f.view()),
        }
    }
}

/// The mathematical view of a [`RuaBareFn`].
pub struct RuaBareFnV {
    pub params: Seq<RuaTypeV>,
    pub ret: Box<RuaTypeV>,
}

/// A bare function signature: parameter types and a return type.
#[derive(Debug, PartialEq, Eq, Hash)]
pub struct RuaBareFn {
    /// The parameter types, in order.
    pub params: Vec<RuaType>,
    /// The return type.
    pub ret: Box<RuaType>,
}

impl View for RuaBareFn {
    type V = RuaBareFnV;

    open spec fn view(&self) -> RuaBareFnV
        decreases self,
    {
        RuaBareFnV { params: rua_type_views(self.params@), ret: Box::new((*self.ret).view()) }
    }
}

/// The mathematical view of a [`RuaSigFn`].
pub struct RuaSigFnV {
    pub name: RuaNameV,
    pub params: Seq<RuaVarV>,
    pub ret: Box<RuaTypeV>,
}

/// A named function signature: name, named parameters and a return
/// type.
#[derive(Debug, PartialEq, Eq, Hash)]
pub struct RuaSigFn {
    /// The name of the function.
    pub name: RuaName,
    /// The named parameters, in order.
    pub params: Vec<RuaVar>,
    /// The return type.
    pub ret: Box<RuaType>,
}

impl View for RuaSigFn {
    type V = RuaSigFnV;

    open spec fn view(&self) -> RuaSigFnV
        decreases self,
    {
        RuaSigFnV {
            name: self.name@,
            params: rua_var_views(self.params@),
            ret: Box::new((*self.ret).view()),
        }
    }
}

impl RuaNamed for RuaSigFn {
    fn name(&self) -> (r: &RuaName)
        ensures
            r@ == self@.name,
    {
        &self.name
    }
}

/// The mathematical view of a [`RuaPointer`].
pub struct RuaPointerV {
    pub is_const: bool,
    pub ty: Box<RuaTypeV>,
}

/// A raw pointer type: constness and pointee type.
#[derive(Debug, PartialEq, Eq, Hash)]
pub struct RuaPointer {
    /// Whether the pointer is a constant pointer; otherwise it is a
    /// mutable pointer.
    pub is_const: bool,
    /// The type the pointer points to.
    pub ty: Box<RuaType>,
}

impl View for RuaPointer {
    type V = RuaPointerV;

    open spec fn view(&self) -> RuaPointerV
        decreases self,
    {
        RuaPointerV { is_const: self.is_const, ty: Box::new((*self.ty).view()) }
    }
}

/// The mathematical view of a [`RuaReference`].
pub struct RuaReferenceV {
    pub is_mut: bool,
    pub ty: Box<RuaTypeV>,
}

/// A reference type: mutability and referent type.
#[derive(Debug, PartialEq, Eq, Hash)]
pub struct RuaReference {
    /// Whether the reference is mutable; otherwise it is shared.
    pub is_mut: bool,
    /// The type the reference refers to.
    pub ty: Box<RuaType>,
}

impl View for RuaReference {
    type V = RuaReferenceV;

    open spec fn view(&self) -> RuaReferenceV
        decreases self,
    {
        RuaReferenceV { is_mut: self.is_mut, ty: Box::new((*self.ty).view()) }
    }
}

} // verus!
