//! The concrete-syntax node types that the conversion layer consumes.
//!
//! A front end parses raw source text and hands the library values of
//! these types; the library never inspects the front end's own tree
//! representation. Every node carries the source span it came from, so
//! that conversion failures can point back into the source text.

use vstd::prelude::*;

verus! {

/// A source location span: start and end, each a line and a column.
#[derive(Debug, Clone, Copy, PartialEq, Eq, Structural)]
pub struct Span {
    /// The line where the spanned text starts.
    pub start_line: usize,
    /// The column where the spanned text starts.
    pub start_col: usize,
    /// The line where the spanned text ends.
    pub end_line: usize,
    /// The column where the spanned text ends.
    pub end_col: usize,
}

/// The mathematical view of a [`LenNode`].
pub enum LenNodeV {
    IntLit { digits: Seq<char>, span: Span },
    LitOther { span: Span },
    PathRef { segments: Seq<Seq<char>>, span: Span },
    ExprOther { span: Span },
}

/// The length expression of a fixed-size array type.
pub enum LenNode {
    /// An integer literal length, kept as its base-10 digits.
    IntLit { digits: String, span: Span },
    /// A literal of some non-integer kind.
    LitOther { span: Span },
    /// A path expression; the identifiers of its segments.
    PathRef { segments: Vec<String>, span: Span },
    /// Any other expression kind.
    ExprOther { span: Span },
}

impl View for LenNode {
    type V = LenNodeV;

    open spec fn view(&self) -> LenNodeV {
        match self {
            LenNode::IntLit { digits, span } => LenNodeV::IntLit {
                digits: digits@,
                span: *span,
            },
            LenNode::LitOther { span } => LenNodeV::LitOther { span: *span },
            LenNode::PathRef { segments, span } => LenNodeV::PathRef {
                segments: segments.deep_view(),
                span: *span,
            },
            LenNode::ExprOther { span } => LenNodeV::ExprOther { span: *span },
        }
    }
}

/// The mathematical view of a [`TypeNode`].
#[verifier::ext_equal]
pub enum TypeNodeV {
    Array { elem: Box<TypeNodeV>, len: LenNodeV, span: Span },
    BareFn { params: Seq<TypeNodeV>, ret: Option<Box<TypeNodeV>>, span: Span },
    Group { span: Span },
    ImplTrait { span: Span },
    Infer { span: Span },
    Macro { span: Span },
    Never { span: Span },
    Paren { span: Span },
    Path { segments: Seq<Seq<char>>, span: Span },
    Ptr { is_const: bool, elem: Box<TypeNodeV>, span: Span },
    Reference { is_mut: bool, elem: Box<TypeNodeV>, span: Span },
    Slice { elem: Box<TypeNodeV>, span: Span },
    TraitObject { span: Span },
    Tuple { elems: Seq<TypeNodeV>, span: Span },
    Verbatim { text: Seq<char>, span: Span },
    Other { span: Span },
}

/// A syntactic type expression, as handed over by the front end.
pub enum TypeNode {
    /// A fixed-size array type `[T; N]`.
    Array { elem: Box<TypeNode>, len: LenNode, span: Span },
    /// A bare function type `fn(T1, ..., Tn) -> R`; `ret` is `None`
    /// when the return type is left to its default.
    BareFn { params: Vec<TypeNode>, ret: Option<Box<TypeNode>>, span: Span },
    /// A type inside invisible delimiters.
    Group { span: Span },
    /// An opaque trait-bound type in argument or return position.
    ImplTrait { span: Span },
    /// A type left for the compiler to infer.
    Infer { span: Span },
    /// A macro invocation in type position.
    Macro { span: Span },
    /// The bottom type that no value inhabits.
    Never { span: Span },
    /// A parenthesized type.
    Paren { span: Span },
    /// A path type such as `a::b::C`; the identifiers of its segments.
    Path { segments: Vec<String>, span: Span },
    /// A raw pointer type.
    Ptr { is_const: bool, elem: Box<TypeNode>, span: Span },
    /// A reference type.
    Reference { is_mut: bool, elem: Box<TypeNode>, span: Span },
    /// A slice type `[T]`.
    Slice { elem: Box<TypeNode>, span: Span },
    /// A trait object type.
    TraitObject { span: Span },
    /// A tuple type `(T1, ..., Tn)`.
    Tuple { elems: Vec<TypeNode>, span: Span },
    /// A raw token sequence the front end could not classify further.
    Verbatim { text: String, span: Span },
    /// Any other syntactic type category.
    Other { span: Span },
}

impl View for TypeNode {
    type V = TypeNodeV;

    open spec fn view(&self) -> TypeNodeV
        decreases self,
    {
        match self {
            TypeNode::Array { elem, len, span } => TypeNodeV::Array {
                elem: Box::new((**elem).view()),
                len: len@,
                span: *span,
            },
            TypeNode::BareFn { params, ret, span } => TypeNodeV::BareFn {
                params: type_views(params@),
                ret: match ret {
                    Some(b) => Some(Box::new((**b).view())),
                    None => None,
                },
                span: *span,
            },
            TypeNode::Group { span } => TypeNodeV::Group { span: *span },
            TypeNode::ImplTrait { span } => TypeNodeV::ImplTrait { span: *span },
            TypeNode::Infer { span } => TypeNodeV::Infer { span: *span },
            TypeNode::Macro { span } => TypeNodeV::Macro { span: *span },
            TypeNode::Never { span } => TypeNodeV::Never { span: *span },
            TypeNode::Paren { span } => TypeNodeV::Paren { span: *span },
            TypeNode::Path { segments, span } => TypeNodeV::Path {
                segments: segments.deep_view(),
                span: *span,
            },
            TypeNode::Ptr { is_const, elem, span } => TypeNodeV::Ptr {
                is_const: *is_const,
                elem: Box::new((**elem).view()),
                span: *span,
            },
            TypeNode::Reference { is_mut, elem, span } => TypeNodeV::Reference {
                is_mut: *is_mut,
                elem: Box::new((**elem).view()),
                span: *span,
            },
            TypeNode::Slice { elem, span } => TypeNodeV::Slice {
                elem: Box::new((**elem).view()),
                span: *span,
            },
            TypeNode::TraitObject { span } => TypeNodeV::TraitObject { span: *span },
            TypeNode::Tuple { elems, span } => TypeNodeV::Tuple {
                elems: type_views(elems@),
                span: *span,
            },
            TypeNode::Verbatim { text, span } => TypeNodeV::Verbatim {
                text: text@,
                span: *span,
            },
            TypeNode::Other { span } => TypeNodeV::Other { span: *span },
        }
    }
}

impl DeepView for TypeNode {
    type V = TypeNodeV;

    open spec fn deep_view(&self) -> TypeNodeV {
        self.view()
    }
}

/// The views of a list of type expressions, elementwise.
pub open spec fn type_views(s: Seq<TypeNode>) -> Seq<TypeNodeV>
    decreases s,
{
    if s.len() == 0 {
        Seq::empty()
    } else {
        seq![s[0]@] + type_views(s.drop_first())
    }
}

/// `type_views` maps the view over the sequence, elementwise.
pub proof fn lemma_type_views(s: Seq<TypeNode>)
    ensures
        type_views(s).len() == s.len(),
        forall|i: int| 0 <= i < s.len() ==> #[trigger] type_views(s)[i] == s[i]@,
    decreases s,
{
    if s.len() > 0 {
        lemma_type_views(s.drop_first());
        assert(type_views(s) == seq![s[0]@] + type_views(s.drop_first()));
        assert forall|i: int| 0 <= i < s.len() implies #[trigger] type_views(s)[i] == s[i]@ by {
            if i == 0 {
                assert(type_views(s)[0] == seq![s[0]@][0]);
            } else {
                assert(type_views(s)[i] == type_views(s.drop_first())[i - 1]);
                assert(s.drop_first()[i - 1] == s[i]);
            }
        }
    }
}

/// The mathematical view of a [`PatNode`].
pub enum PatNodeV {
    Ident { name: Seq<char>, span: Span },
    Other { span: Span },
}

/// The pattern of a typed function parameter.
pub enum PatNode {
    /// A plain identifier pattern.
    Ident { name: String, span: Span },
    /// Any other pattern kind.
    Other { span: Span },
}

impl View for PatNode {
    type V = PatNodeV;

    open spec fn view(&self) -> PatNodeV {
        match self {
            PatNode::Ident { name, span } => PatNodeV::Ident { name: name@, span: *span },
            PatNode::Other { span } => PatNodeV::Other { span: *span },
        }
    }
}

/// The mathematical view of a [`ParamNode`].
pub enum ParamNodeV {
    Receiver { span: Span },
    Typed { pat: PatNodeV, ty: TypeNodeV, span: Span },
}

/// One parameter of a function declaration.
pub enum ParamNode {
    /// A self-style receiver parameter.
    Receiver { span: Span },
    /// A pattern bound to a type.
    Typed { pat: PatNode, ty: TypeNode, span: Span },
}

impl View for ParamNode {
    type V = ParamNodeV;

    open spec fn view(&self) -> ParamNodeV {
        match self {
            ParamNode::Receiver { span } => ParamNodeV::Receiver { span: *span },
            ParamNode::Typed { pat, ty, span } => ParamNodeV::Typed {
                pat: pat@,
                ty: ty@,
                span: *span,
            },
        }
    }
}

impl DeepView for ParamNode {
    type V = ParamNodeV;

    open spec fn deep_view(&self) -> ParamNodeV {
        self.view()
    }
}

/// The mathematical view of a [`FieldNode`].
pub struct FieldNodeV {
    pub name: Option<Seq<char>>,
    pub ty: TypeNodeV,
    pub span: Span,
}

/// One field of a struct or of an enum variant.
pub struct FieldNode {
    /// The field's identifier; absent for a positional field.
    pub name: Option<String>,
    /// The field's declared type.
    pub ty: TypeNode,
    /// Where the field stands in the source text.
    pub span: Span,
}

impl View for FieldNode {
    type V = FieldNodeV;

    open spec fn view(&self) -> FieldNodeV {
        FieldNodeV { name: self.name.deep_view(), ty: self.ty@, span: self.span }
    }
}

impl DeepView for FieldNode {
    type V = FieldNodeV;

    open spec fn deep_view(&self) -> FieldNodeV {
        self.view()
    }
}

/// The mathematical view of a [`FieldsNode`].
pub enum FieldsNodeV {
    Named { fields: Seq<FieldNodeV> },
    Unnamed { fields: Seq<FieldNodeV> },
    Unit,
}

/// The field shape of a struct or of an enum variant.
pub enum FieldsNode {
    /// Curly-brace fields, each with an identifier.
    Named { fields: Vec<FieldNode> },
    /// Parenthesized positional fields.
    Unnamed { fields: Vec<FieldNode> },
    /// No fields at all.
    Unit,
}

impl View for FieldsNode {
    type V = FieldsNodeV;

    open spec fn view(&self) -> FieldsNodeV {
        match self {
            FieldsNode::Named { fields } => FieldsNodeV::Named { fields: fields.deep_view() },
            FieldsNode::Unnamed { fields } => FieldsNodeV::Unnamed {
                fields: fields.deep_view(),
            },
            FieldsNode::Unit => FieldsNodeV::Unit,
        }
    }
}

/// The mathematical view of a [`VariantNode`].
pub struct VariantNodeV {
    pub name: Seq<char>,
    pub fields: FieldsNodeV,
    pub span: Span,
}

/// One variant of an enum declaration.
pub struct VariantNode {
    /// The variant's identifier.
    pub name: String,
    /// The variant's field shape.
    pub fields: FieldsNode,
    /// Where the variant stands in the source text.
    pub span: Span,
}

impl View for VariantNode {
    type V = VariantNodeV;

    open spec fn view(&self) -> VariantNodeV {
        VariantNodeV { name: self.name@, fields: self.fields@, span: self.span }
    }
}

impl DeepView for VariantNode {
    type V = VariantNodeV;

    open spec fn deep_view(&self) -> VariantNodeV {
        self.view()
    }
}

impl VariantNode {
    /// Whether the variant has the unit shape.
    pub fn is_unit(&self) -> (r: bool)
        ensures
            r == (self@.fields matches FieldsNodeV::Unit),
    {
        match &self.fields {
            FieldsNode::Unit => true,
            _ => false,
        }
    }
}

/// The mathematical view of a [`StructNode`].
pub struct StructNodeV {
    pub name: Seq<char>,
    pub fields: FieldsNodeV,
    pub is_pub: bool,
    pub attrs: Seq<Seq<char>>,
    pub span: Span,
}

/// A struct declaration.
pub struct StructNode {
    /// The struct's identifier.
    pub name: String,
    /// The struct's field shape.
    pub fields: FieldsNode,
    /// Whether the struct is declared public.
    pub is_pub: bool,
    /// The names of the attributes on the declaration.
    pub attrs: Vec<String>,
    /// Where the declaration stands in the source text.
    pub span: Span,
}

impl View for StructNode {
    type V = StructNodeV;

    open spec fn view(&self) -> StructNodeV {
        StructNodeV {
            name: self.name@,
            fields: self.fields@,
            is_pub: self.is_pub,
            attrs: self.attrs.deep_view(),
            span: self.span,
        }
    }
}

/// The mathematical view of an [`EnumNode`].
pub struct EnumNodeV {
    pub name: Seq<char>,
    pub variants: Seq<VariantNodeV>,
    pub is_pub: bool,
    pub attrs: Seq<Seq<char>>,
    pub span: Span,
}

/// An enum declaration.
pub struct EnumNode {
    /// The enum's identifier.
    pub name: String,
    /// The enum's variants, in declaration order.
    pub variants: Vec<VariantNode>,
    /// Whether the enum is declared public.
    pub is_pub: bool,
    /// The names of the attributes on the declaration.
    pub attrs: Vec<String>,
    /// Where the declaration stands in the source text.
    pub span: Span,
}

impl View for EnumNode {
    type V = EnumNodeV;

    open spec fn view(&self) -> EnumNodeV {
        EnumNodeV {
            name: self.name@,
            variants: self.variants.deep_view(),
            is_pub: self.is_pub,
            attrs: self.attrs.deep_view(),
            span: self.span,
        }
    }
}

/// The mathematical view of an [`FnNode`].
pub struct FnNodeV {
    pub name: Seq<char>,
    pub params: Seq<ParamNodeV>,
    pub ret: Option<TypeNodeV>,
    pub is_pub: bool,
    pub attrs: Seq<Seq<char>>,
    pub span: Span,
}

/// A function declaration.
pub struct FnNode {
    /// The function's identifier.
    pub name: String,
    /// The function's parameters, in declaration order.
    pub params: Vec<ParamNode>,
    /// The declared return type; `None` when left to its default.
    pub ret: Option<TypeNode>,
    /// Whether the function is declared public.
    pub is_pub: bool,
    /// The names of the attributes on the declaration.
    pub attrs: Vec<String>,
    /// Where the declaration stands in the source text.
    pub span: Span,
}

impl View for FnNode {
    type V = FnNodeV;

    open spec fn view(&self) -> FnNodeV {
        FnNodeV {
            name: self.name@,
            params: self.params.deep_view(),
            ret: self.ret.deep_view(),
            is_pub: self.is_pub,
            attrs: self.attrs.deep_view(),
            span: self.span,
        }
    }
}

/// The mathematical view of a [`ModNode`].
pub struct ModNodeV {
    pub name: Seq<char>,
    pub is_pub: bool,
    pub attrs: Seq<Seq<char>>,
    pub span: Span,
}

/// A nested module declaration.
pub struct ModNode {
    /// The module's identifier.
    pub name: String,
    /// Whether the module is declared public.
    pub is_pub: bool,
    /// The names of the attributes on the declaration.
    pub attrs: Vec<String>,
    /// Where the declaration stands in the source text.
    pub span: Span,
}

impl View for ModNode {
    type V = ModNodeV;

    open spec fn view(&self) -> ModNodeV {
        ModNodeV {
            name: self.name@,
            is_pub: self.is_pub,
            attrs: self.attrs.deep_view(),
            span: self.span,
        }
    }
}

/// The declaration kinds that the traversal does not route anywhere.
#[derive(Debug, Clone, Copy, PartialEq, Eq, Structural)]
pub enum OtherItemKind {
    /// A constant declaration.
    ConstItem,
    /// A declaration importing another crate wholesale.
    CrateImport,
    /// A foreign-function module block.
    ForeignMod,
    /// An impl block.
    ImplBlock,
    /// A macro declaration or invocation.
    MacroItem,
    /// A static declaration.
    StaticItem,
    /// A trait declaration.
    TraitItem,
    /// A trait alias.
    TraitAlias,
    /// A type alias.
    TypeAlias,
    /// A union declaration.
    UnionItem,
    /// A use declaration.
    UseItem,
    /// A raw token sequence the front end could not classify further.
    VerbatimItem,
    /// Anything else.
    UnknownItem,
}

/// The mathematical view of an [`ItemNode`].
pub enum ItemNodeV {
    Mod { m: ModNodeV },
    Struct { s: StructNodeV },
    Enum { e: EnumNodeV },
    Fn { f: FnNodeV },
    Other { kind: OtherItemKind },
}

/// One top-level declaration of a parsed source file.
pub enum ItemNode {
    /// A nested module declaration.
    Mod { m: ModNode },
    /// A struct declaration.
    Struct { s: StructNode },
    /// An enum declaration.
    Enum { e: EnumNode },
    /// A function declaration.
    Fn { f: FnNode },
    /// Any other declaration kind; only its kind tag is kept.
    Other { kind: OtherItemKind },
}

impl View for ItemNode {
    type V = ItemNodeV;

    open spec fn view(&self) -> ItemNodeV {
        match self {
            ItemNode::Mod { m } => ItemNodeV::Mod { m: m@ },
            ItemNode::Struct { s } => ItemNodeV::Struct { s: s@ },
            ItemNode::Enum { e } => ItemNodeV::Enum { e: e@ },
            ItemNode::Fn { f } => ItemNodeV::Fn { f: f@ },
            ItemNode::Other { kind } => ItemNodeV::Other { kind: *kind },
        }
    }
}

impl DeepView for ItemNode {
    type V = ItemNodeV;

    open spec fn deep_view(&self) -> ItemNodeV {
        self.view()
    }
}

/// The tag that [`ItemNode::ty`] reports for each declaration kind.
pub open spec fn spec_item_ty(v: ItemNodeV) -> Seq<char> {
    match v {
        ItemNodeV::Mod { .. } => "mod"@,
        ItemNodeV::Struct { .. } => "struct"@,
        ItemNodeV::Enum { .. } => "enum"@,
        ItemNodeV::Fn { .. } => "fn"@,
        ItemNodeV::Other { kind } => match kind {
            OtherItemKind::ConstItem => "const"@,
            OtherItemKind::CrateImport => "crate import"@,
            OtherItemKind::ForeignMod => "foreign mod"@,
            OtherItemKind::ImplBlock => "impl"@,
            OtherItemKind::MacroItem => "macro"@,
            OtherItemKind::StaticItem => "static"@,
            OtherItemKind::TraitItem => "trait"@,
            OtherItemKind::TraitAlias => "trait alias"@,
            OtherItemKind::TypeAlias => "type"@,
            OtherItemKind::UnionItem => "union"@,
            OtherItemKind::UseItem => "use"@,
            OtherItemKind::VerbatimItem => "verbatim"@,
            OtherItemKind::UnknownItem => "unknown"@,
        },
    }
}

impl ItemNode {
    /// A short display tag for the declaration kind.
    pub fn ty(&self) -> (r: &'static str)
        ensures
            r@ == spec_item_ty(self@),
    {
        match self {
            ItemNode::Mod { .. } => "mod",
            ItemNode::Struct { .. } => "struct",
            ItemNode::Enum { .. } => "enum",
            ItemNode::Fn { .. } => "fn",
            ItemNode::Other { kind } => match kind {
                OtherItemKind::ConstItem => "const",
                OtherItemKind::CrateImport => "crate import",
                OtherItemKind::ForeignMod => "foreign mod",
                OtherItemKind::ImplBlock => "impl",
                OtherItemKind::MacroItem => "macro",
                OtherItemKind::StaticItem => "static",
                OtherItemKind::TraitItem => "trait",
                OtherItemKind::TraitAlias => "trait alias",
                OtherItemKind::TypeAlias => "type",
                OtherItemKind::UnionItem => "union",
                OtherItemKind::UseItem => "use",
                OtherItemKind::VerbatimItem => "verbatim",
                OtherItemKind::UnknownItem => "unknown",
            },
        }
    }
}

/// The mathematical view of a [`FileNode`].
pub struct FileNodeV {
    pub items: Seq<ItemNodeV>,
}

/// A parsed source file: its top-level declarations, in order.
pub struct FileNode {
    /// The file's top-level declarations, in source order.
    pub items: Vec<ItemNode>,
}

impl View for FileNode {
    type V = FileNodeV;

    open spec fn view(&self) -> FileNodeV {
        FileNodeV { items: self.items.deep_view() }
    }
}

} // verus!
