//! The conversion layer: fallible, pure conversions from concrete
//! syntax nodes into intermediate-model values, with chained,
//! span-located diagnostics.
//!
//! Every conversion either returns a model value or a
//! [`ConversionError`] whose span points at the offending node and
//! whose cause chain walks from the innermost structural fault
//! outward through each enclosing conversion attempt.

use vstd::prelude::*;

use crate::errors::{ConversionError, ConversionErrorV};
use crate::models::{
    RuaArray, RuaArrayV, RuaBareFn, RuaBareFnV, RuaCase, RuaEnum, RuaEnumV, RuaFn, RuaFnV,
    RuaName, RuaNameV, RuaNamedStruct, RuaNamedStructV, RuaPointer, RuaPointerV, RuaReference,
    RuaReferenceV, RuaSigFn, RuaSigFnV, RuaSlice, RuaSliceV, RuaStruct, RuaStructV, RuaTuple,
    RuaTupleStruct, RuaTupleStructV, RuaTupleV, RuaType, RuaTypeV, RuaUnitStruct, RuaUnitStructV,
    RuaVar, RuaVarV,
};
use crate::nodes::{
    lemma_type_views, type_views, EnumNode, EnumNodeV, FieldNode, FieldNodeV, FieldsNode,
    FieldsNodeV, FnNode, FnNodeV, LenNode, LenNodeV, ParamNode, ParamNodeV, PatNodeV, Span,
    StructNode, StructNodeV, TypeNode, TypeNodeV, VariantNode, VariantNodeV,
};
use crate::utils::{
    is_camel_case, is_pascal_case, is_snake_case, parse_usize_digits, spec_all_digits,
    spec_decimal_value, spec_is_camel_case, spec_is_pascal_case, spec_is_snake_case,
};

verus! {

/// The view of a conversion result: the view of whichever value it
/// holds.
pub open spec fn view_result<T: View, E: View>(r: Result<T, E>) -> Result<T::V, E::V> {
    match r {
        Ok(t) => Ok(t@),
        Err(e) => Err(e@),
    }
}

/// A fresh conversion error: the node's span, the two type tags, and
/// a message, with no cause.
pub open spec fn spec_conv_error(span: Span, st: Seq<char>, tt: Seq<char>, msg: Seq<char>)
    -> ConversionErrorV {
    ConversionErrorV {
        path: None,
        start: Some((span.start_line, span.start_col)),
        end: Some((span.end_line, span.end_col)),
        source_type: Some(st),
        target_type: Some(tt),
        message: Some(msg),
        err_source: None,
    }
}

/// A wrapping conversion error: the enclosing node's span and type
/// tags, with the inner error as its cause.
pub open spec fn spec_wrap_error(e: ConversionErrorV, span: Span, st: Seq<char>, tt: Seq<char>)
    -> ConversionErrorV {
    ConversionErrorV {
        path: None,
        start: Some((span.start_line, span.start_col)),
        end: Some((span.end_line, span.end_col)),
        source_type: Some(st),
        target_type: Some(tt),
        message: None,
        err_source: Some(Box::new(e)),
    }
}

/// Builds a fresh conversion error for a failing node.
fn conv_error(span: &Span, st: &str, tt: &str, msg: String) -> (r: ConversionError)
    ensures
        r@ == spec_conv_error(*span, st@, tt@, msg@),
{
    ConversionError::builder().span(span).source_type(st).target_type(tt).message(msg).build()
}

/// Wraps an inner conversion error with the enclosing node's span and
/// type tags.
fn wrap_error(e: ConversionError, span: &Span, st: &str, tt: &str) -> (r: ConversionError)
    ensures
        r@ == spec_wrap_error(e@, *span, st@, tt@),
{
    e.builder_for_next().span(span).source_type(st).target_type(tt).build()
}

/// Whether two strings hold the same characters.
pub fn str_eq(a: &str, b: &str) -> (r: bool)
    ensures
        r == (a@ == b@),
{
    let n = a.unicode_len();
    let m = b.unicode_len();
    if n != m {
        return false;
    }
    let mut i: usize = 0;
    while i < n
        invariant
            0 <= i <= n,
            n == a@.len(),
            n == b@.len(),
            forall|j: int| 0 <= j < i ==> a@[j] == b@[j],
        decreases n - i,
    {
        if a.get_char(i) != b.get_char(i) {
            return false;
        }
        i = i + 1;
    }
    proof {
        assert(a@ =~= b@);
    }
    true
}

/// The name classification underlying `RuaName::try_from_ident`: the
/// first of snake_case, camelCase, PascalCase that matches, or a
/// conversion error naming the identifier.
pub open spec fn spec_name_from_ident(name: Seq<char>, span: Span) -> Result<
    RuaNameV,
    ConversionErrorV,
> {
    if spec_is_snake_case(name) {
        Ok(RuaNameV { name, case: RuaCase::SnakeCase, matches_case: true })
    } else if spec_is_camel_case(name) {
        Ok(RuaNameV { name, case: RuaCase::CamelCase, matches_case: true })
    } else if spec_is_pascal_case(name) {
        Ok(RuaNameV { name, case: RuaCase::PascalCase, matches_case: true })
    } else {
        Err(
            spec_conv_error(
                span,
                "Ident"@,
                "RuaName"@,
                "The name of the ident is not a valid case: "@ + name,
            ),
        )
    }
}

impl RuaName {
    /// Classifies an identifier's casing; an identifier matching none
    /// of the three recognized casings is a conversion failure.
    pub fn try_from_ident(name: &str, span: &Span) -> (r: Result<RuaName, ConversionError>)
        ensures
            view_result(r) == spec_name_from_ident(name@, *span),
    {
        if is_snake_case(name) {
            Ok(RuaName::new(name, RuaCase::SnakeCase))
        } else if is_camel_case(name) {
            Ok(RuaName::new(name, RuaCase::CamelCase))
        } else if is_pascal_case(name) {
            Ok(RuaName::new(name, RuaCase::PascalCase))
        } else {
            let mut msg = String::new();
            msg.append("The name of the ident is not a valid case: ");
            msg.append(name);
            proof {
                assert(msg@ =~= "The name of the ident is not a valid case: "@ + name@);
            }
            Err(conv_error(span, "Ident", "RuaName", msg))
        }
    }
}

/// The array-length classification underlying
/// `RuaArrayLen::try_from_node`: an integer literal that fits in
/// `usize` becomes a literal length, a one-segment path becomes a
/// named constant, and everything else fails.
pub open spec fn spec_array_len_from_node(n: LenNodeV) -> Result<
    crate::models::RuaArrayLenV,
    ConversionErrorV,
> {
    match n {
        LenNodeV::IntLit { digits, span } => {
            if digits.len() > 0 && spec_all_digits(digits) && spec_decimal_value(digits)
                <= usize::MAX as int {
                Ok(crate::models::RuaArrayLenV::Num(spec_decimal_value(digits) as usize))
            } else {
                Err(
                    spec_conv_error(
                        span,
                        "Expr"@,
                        "RuaArrayLen"@,
                        "failed to parse usize"@,
                    ),
                )
            }
        },
        LenNodeV::LitOther { span } => Err(
            spec_conv_error(span, "Expr"@, "RuaArrayLen"@, "unsupported literal type"@),
        ),
        LenNodeV::PathRef { segments, span } => {
            if segments.len() != 1 {
                Err(
                    spec_conv_error(
                        span,
                        "Expr"@,
                        "RuaArrayLen"@,
                        "unsupported path segments length"@,
                    ),
                )
            } else {
                Ok(crate::models::RuaArrayLenV::Const(segments[0]))
            }
        },
        LenNodeV::ExprOther { span } => Err(
            spec_conv_error(span, "Expr"@, "RuaArrayLen"@, "unsupported expression type"@),
        ),
    }
}

impl crate::models::RuaArrayLen {
    /// Converts an array-length expression: an integer literal that
    /// fits in `usize`, or a one-segment path naming a constant;
    /// anything else fails.
    pub fn try_from_node(n: &LenNode) -> (r: Result<Self, ConversionError>)
        ensures
            view_result(r) == spec_array_len_from_node(n@),
    {
        match n {
            LenNode::IntLit { digits, span } => {
                match parse_usize_digits(digits.as_str()) {
                    Some(v) => Ok(crate::models::RuaArrayLen::Num(v)),
                    None => Err(
                        conv_error(span, "Expr", "RuaArrayLen", owned("failed to parse usize")),
                    ),
                }
            },
            LenNode::LitOther { span } => Err(
                conv_error(span, "Expr", "RuaArrayLen", owned("unsupported literal type")),
            ),
            LenNode::PathRef { segments, span } => {
                if segments.len() != 1 {
                    Err(
                        conv_error(
                            span,
                            "Expr",
                            "RuaArrayLen",
                            owned("unsupported path segments length"),
                        ),
                    )
                } else {
                    let c = segments[0].clone();
                    proof {
                        assert(segments.deep_view()[0] == segments@[0]@);
                    }
                    Ok(crate::models::RuaArrayLen::Const(c))
                }
            },
            LenNode::ExprOther { span } => Err(
                conv_error(span, "Expr", "RuaArrayLen", owned("unsupported expression type")),
            ),
        }
    }
}

/// An owned copy of a string literal.
fn owned(s: &str) -> (r: String)
    ensures
        r@ == s@,
{
    s.to_owned()
}

/// The source span a type expression carries.
pub open spec fn spec_type_node_span(n: TypeNodeV) -> Span {
    match n {
        TypeNodeV::Array { span, .. } => span,
        TypeNodeV::BareFn { span, .. } => span,
        TypeNodeV::Group { span } => span,
        TypeNodeV::ImplTrait { span } => span,
        TypeNodeV::Infer { span } => span,
        TypeNodeV::Macro { span } => span,
        TypeNodeV::Never { span } => span,
        TypeNodeV::Paren { span } => span,
        TypeNodeV::Path { span, .. } => span,
        TypeNodeV::Ptr { span, .. } => span,
        TypeNodeV::Reference { span, .. } => span,
        TypeNodeV::Slice { span, .. } => span,
        TypeNodeV::TraitObject { span } => span,
        TypeNodeV::Tuple { span, .. } => span,
        TypeNodeV::Verbatim { span, .. } => span,
        TypeNodeV::Other { span } => span,
    }
}

/// The source span a type expression carries.
pub fn type_node_span(n: &TypeNode) -> (r: Span)
    ensures
        r == spec_type_node_span(n@),
{
    match n {
        TypeNode::Array { span, .. } => *span,
        TypeNode::BareFn { span, .. } => *span,
        TypeNode::Group { span } => *span,
        TypeNode::ImplTrait { span } => *span,
        TypeNode::Infer { span } => *span,
        TypeNode::Macro { span } => *span,
        TypeNode::Never { span } => *span,
        TypeNode::Paren { span } => *span,
        TypeNode::Path { span, .. } => *span,
        TypeNode::Ptr { span, .. } => *span,
        TypeNode::Reference { span, .. } => *span,
        TypeNode::Slice { span, .. } => *span,
        TypeNode::TraitObject { span } => *span,
        TypeNode::Tuple { span, .. } => *span,
        TypeNode::Verbatim { span, .. } => *span,
        TypeNode::Other { span } => *span,
    }
}

/// A conversion error holding only a message.
pub open spec fn spec_msg_only_error(msg: Seq<char>) -> ConversionErrorV {
    ConversionErrorV {
        path: None,
        start: None,
        end: None,
        source_type: None,
        target_type: None,
        message: Some(msg),
        err_source: None,
    }
}

/// The primitive-spelling table underlying path-type resolution: the
/// final path segment's identifier against the fixed spellings of the
/// numeric kinds, boolean, character, string-slice, owned-string and
/// unit; anything else becomes a named custom type, classified by its
/// casing.
pub open spec fn spec_ident_type_from_name(name: Seq<char>, span: Span) -> Result<
    RuaTypeV,
    ConversionErrorV,
> {
    if name == "u8"@ {
        Ok(RuaTypeV::U8)
    } else if name == "u16"@ {
        Ok(RuaTypeV::U16)
    } else if name == "u32"@ {
        Ok(RuaTypeV::U32)
    } else if name == "u64"@ {
        Ok(RuaTypeV::U64)
    } else if name == "u128"@ {
        Ok(RuaTypeV::U128)
    } else if name == "usize"@ {
        Ok(RuaTypeV::Usize)
    } else if name == "i8"@ {
        Ok(RuaTypeV::I8)
    } else if name == "i16"@ {
        Ok(RuaTypeV::I16)
    } else if name == "i32"@ {
        Ok(RuaTypeV::I32)
    } else if name == "i64"@ {
        Ok(RuaTypeV::I64)
    } else if name == "i128"@ {
        Ok(RuaTypeV::I128)
    } else if name == "isize"@ {
        Ok(RuaTypeV::Isize)
    } else if name == "f32"@ {
        Ok(RuaTypeV::F32)
    } else if name == "f64"@ {
        Ok(RuaTypeV::F64)
    } else if name == "bool"@ {
        Ok(RuaTypeV::Bool)
    } else if name == "char"@ || name == "Char"@ {
        Ok(RuaTypeV::Char)
    } else if name == "str"@ {
        Ok(RuaTypeV::Str)
    } else if name == "String"@ {
        Ok(RuaTypeV::String)
    } else if name == "unit"@ || name == "Unit"@ || name == "()"@ {
        Ok(RuaTypeV::Unit)
    } else {
        match spec_name_from_ident(name, span) {
            Ok(n) => Ok(RuaTypeV::Custom(n)),
            Err(e) => Err(spec_wrap_error(e, span, "Ident"@, "RuaType"@)),
        }
    }
}

/// Resolves a path segment identifier against the primitive table.
pub fn ident_type_from_name(name: &str, span: &Span) -> (r: Result<RuaType, ConversionError>)
    ensures
        view_result(r) == spec_ident_type_from_name(name@, *span),
{
    if str_eq(name, "u8") {
        Ok(RuaType::U8)
    } else if str_eq(name, "u16") {
        Ok(RuaType::U16)
    } else if str_eq(name, "u32") {
        Ok(RuaType::U32)
    } else if str_eq(name, "u64") {
        Ok(RuaType::U64)
    } else if str_eq(name, "u128") {
        Ok(RuaType::U128)
    } else if str_eq(name, "usize") {
        Ok(RuaType::Usize)
    } else if str_eq(name, "i8") {
        Ok(RuaType::I8)
    } else if str_eq(name, "i16") {
        Ok(RuaType::I16)
    } else if str_eq(name, "i32") {
        Ok(RuaType::I32)
    } else if str_eq(name, "i64") {
        Ok(RuaType::I64)
    } else if str_eq(name, "i128") {
        Ok(RuaType::I128)
    } else if str_eq(name, "isize") {
        Ok(RuaType::Isize)
    } else if str_eq(name, "f32") {
        Ok(RuaType::F32)
    } else if str_eq(name, "f64") {
        Ok(RuaType::F64)
    } else if str_eq(name, "bool") {
        Ok(RuaType::Bool)
    } else if str_eq(name, "char") || str_eq(name, "Char") {
        Ok(RuaType::Char)
    } else if str_eq(name, "str") {
        Ok(RuaType::Str)
    } else if str_eq(name, "String") {
        Ok(RuaType::String)
    } else if str_eq(name, "unit") || str_eq(name, "Unit") || str_eq(name, "()") {
        Ok(RuaType::Unit)
    } else {
        match RuaName::try_from_ident(name, span) {
            Ok(n) => Ok(RuaType::Custom(n)),
            Err(e) => Err(wrap_error(e, span, "Ident", "RuaType")),
        }
    }
}

/// Path-type resolution: the final segment's identifier decides; an
/// empty path fails.
pub open spec fn spec_path_type_from_node(segments: Seq<Seq<char>>, span: Span) -> Result<
    RuaTypeV,
    ConversionErrorV,
> {
    if segments.len() == 0 {
        Err(spec_wrap_error(spec_msg_only_error("empty path"@), span, "TypePath"@, "RuaType"@))
    } else {
        match spec_ident_type_from_name(segments.last(), span) {
            Ok(t) => Ok(t),
            Err(e) => Err(spec_wrap_error(e, span, "TypePath"@, "RuaType"@)),
        }
    }
}

/// Resolves a path type by its final segment's identifier.
pub fn path_type_from_node(segments: &Vec<String>, span: &Span) -> (r: Result<
    RuaType,
    ConversionError,
>)
    ensures
        view_result(r) == spec_path_type_from_node(segments.deep_view(), *span),
{
    if segments.len() == 0 {
        let inner = ConversionError::builder().message(owned("empty path")).build();
        Err(wrap_error(inner, span, "TypePath", "RuaType"))
    } else {
        let last = &segments[segments.len() - 1];
        proof {
            assert(segments.deep_view().last() == segments@[segments@.len() - 1]@);
        }
        match ident_type_from_name(last.as_str(), span) {
            Ok(t) => Ok(t),
            Err(e) => Err(wrap_error(e, span, "TypePath", "RuaType")),
        }
    }
}

/// The conversions of a list of type expressions; the first failure
/// wins, unwrapped.
pub open spec fn spec_type_list(s: Seq<TypeNodeV>) -> Result<Seq<RuaTypeV>, ConversionErrorV>
    decreases s, 0int,
{
    if s.len() == 0 {
        Ok(Seq::empty())
    } else {
        match spec_type_from_node(s[0]) {
            Err(e) => Err(e),
            Ok(t) => match spec_type_list(s.drop_first()) {
                Ok(rest) => Ok(seq![t] + rest),
                Err(e) => Err(e),
            },
        }
    }
}

/// The conversions of a bare function's parameter types; each failure
/// is wrapped as a parameter-position fault, and the first wins.
pub open spec fn spec_bare_param_list(s: Seq<TypeNodeV>) -> Result<Seq<RuaTypeV>, ConversionErrorV>
    decreases s, 0int,
{
    if s.len() == 0 {
        Ok(Seq::empty())
    } else {
        match spec_type_from_node(s[0]) {
            Err(e) => Err(spec_wrap_error(e, spec_type_node_span(s[0]), "BareFnArg"@, "RuaType"@)),
            Ok(t) => match spec_bare_param_list(s.drop_first()) {
                Ok(rest) => Ok(seq![t] + rest),
                Err(e) => Err(e),
            },
        }
    }
}

/// Slice-type conversion: the element type.
pub open spec fn spec_slice_from_node(elem: TypeNodeV, span: Span) -> Result<
    RuaSliceV,
    ConversionErrorV,
>
    decreases elem, 1int,
{
    match spec_type_from_node(elem) {
        Ok(t) => Ok(RuaSliceV { ty: Box::new(t) }),
        Err(e) => Err(spec_wrap_error(e, span, "TypeSlice"@, "RuaSlice"@)),
    }
}

/// Array-type conversion: the element type and the length expression.
pub open spec fn spec_array_from_node(elem: TypeNodeV, len: LenNodeV, span: Span) -> Result<
    RuaArrayV,
    ConversionErrorV,
>
    decreases elem, 1int,
{
    match spec_type_from_node(elem) {
        Err(e) => Err(spec_wrap_error(e, span, "TypeArray"@, "RuaArray"@)),
        Ok(t) => match spec_array_len_from_node(len) {
            Err(e) => Err(spec_wrap_error(e, span, "TypeArray"@, "RuaArray"@)),
            Ok(l) => Ok(RuaArrayV { ty: Box::new(t), len: l }),
        },
    }
}

/// Tuple-type conversion: the component types, in order.
pub open spec fn spec_tuple_from_node(elems: Seq<TypeNodeV>, span: Span) -> Result<
    RuaTupleV,
    ConversionErrorV,
>
    decreases elems, 1int,
{
    match spec_type_list(elems) {
        Ok(tys) => Ok(RuaTupleV { tys }),
        Err(e) => Err(spec_wrap_error(e, span, "TypeTuple"@, "RuaTuple"@)),
    }
}

/// Raw-pointer-type conversion: constness and pointee type.
pub open spec fn spec_ptr_from_node(elem: TypeNodeV, is_const: bool, span: Span) -> Result<
    RuaPointerV,
    ConversionErrorV,
>
    decreases elem, 1int,
{
    match spec_type_from_node(elem) {
        Ok(t) => Ok(RuaPointerV { is_const, ty: Box::new(t) }),
        Err(e) => Err(spec_wrap_error(e, span, "TypePtr"@, "RuaPointer"@)),
    }
}

/// Reference-type conversion: mutability and referent type.
pub open spec fn spec_ref_from_node(elem: TypeNodeV, is_mut: bool, span: Span) -> Result<
    RuaReferenceV,
    ConversionErrorV,
>
    decreases elem, 1int,
{
    match spec_type_from_node(elem) {
        Ok(t) => Ok(RuaReferenceV { is_mut, ty: Box::new(t) }),
        Err(e) => Err(spec_wrap_error(e, span, "TypeReference"@, "RuaReference"@)),
    }
}

/// Return-type conversion for a bare function: an absent return
/// type defaults to the unit type; a failing one is a
/// return-position fault.
pub open spec fn spec_bare_ret(o: Option<Box<TypeNodeV>>) -> Result<RuaTypeV, ConversionErrorV>
    decreases o, 1int,
{
    match o {
        None => Ok(RuaTypeV::Unit),
        Some(b) => match spec_type_from_node(*b) {
            Err(e) => Err(spec_wrap_error(e, spec_type_node_span(*b), "ReturnType"@, "RuaType"@)),
            Ok(t) => Ok(t),
        },
    }
}

/// Type conversion, switching on the node's syntactic category.
/// Composite categories convert their components; path types resolve
/// by the primitive table; the unsupported categories always fail
/// with a message naming the category.
pub open spec fn spec_type_from_node(n: TypeNodeV) -> Result<RuaTypeV, ConversionErrorV>
    decreases n, 0int,
{
    match n {
        TypeNodeV::Array { elem, len, span } => match spec_array_from_node(*elem, len, span) {
            Ok(a) => Ok(RuaTypeV::Array(a)),
            Err(e) => Err(spec_wrap_error(e, span, "Type"@, "RuaType"@)),
        },
        TypeNodeV::BareFn { params, ret, span } => match spec_bare_param_list(params) {
            Err(e) => Err(
                spec_wrap_error(
                    spec_wrap_error(e, span, "TypeBareFn"@, "RuaFn"@),
                    span,
                    "Type"@,
                    "RuaType"@,
                ),
            ),
            Ok(ps) => match spec_bare_ret(ret) {
                Err(e) => Err(
                    spec_wrap_error(
                        spec_wrap_error(e, span, "TypeBareFn"@, "RuaFn"@),
                        span,
                        "Type"@,
                        "RuaType"@,
                    ),
                ),
                Ok(rt) => Ok(
                    RuaTypeV::Fn(RuaFnV::Bare(RuaBareFnV { params: ps, ret: Box::new(rt) })),
                ),
            },
        },
        TypeNodeV::Group { span } => Err(
            spec_conv_error(span, "Type"@, "RuaType"@, "unsupported type Group"@),
        ),
        TypeNodeV::ImplTrait { span } => Err(
            spec_conv_error(span, "Type"@, "RuaType"@, "unsupported type ImplTrait"@),
        ),
        TypeNodeV::Infer { span } => Err(
            spec_conv_error(
                span,
                "Type"@,
                "RuaType"@,
                "unsupported type Infer, please specify the type explicitly"@,
            ),
        ),
        TypeNodeV::Macro { span } => Err(
            spec_conv_error(span, "Type"@, "RuaType"@, "unsupported type Macro"@),
        ),
        TypeNodeV::Never { span } => Err(
            spec_conv_error(span, "Type"@, "RuaType"@, "unsupported type Never"@),
        ),
        TypeNodeV::Paren { span } => Err(
            spec_conv_error(span, "Type"@, "RuaType"@, "unsupported type Paren"@),
        ),
        TypeNodeV::Path { segments, span } => match spec_path_type_from_node(segments, span) {
            Ok(t) => Ok(t),
            Err(e) => Err(spec_wrap_error(e, span, "Type"@, "RuaType"@)),
        },
        TypeNodeV::Ptr { is_const, elem, span } => match spec_ptr_from_node(
            *elem,
            is_const,
            span,
        ) {
            Ok(p) => Ok(RuaTypeV::Pointer(p)),
            Err(e) => Err(spec_wrap_error(e, span, "Type"@, "RuaType"@)),
        },
        TypeNodeV::Reference { is_mut, elem, span } => match spec_ref_from_node(
            *elem,
            is_mut,
            span,
        ) {
            Ok(rf) => Ok(RuaTypeV::Reference(rf)),
            Err(e) => Err(spec_wrap_error(e, span, "Type"@, "RuaType"@)),
        },
        TypeNodeV::Slice { elem, span } => match spec_slice_from_node(*elem, span) {
            Ok(s) => Ok(RuaTypeV::Slice(s)),
            Err(e) => Err(spec_wrap_error(e, span, "Type"@, "RuaType"@)),
        },
        TypeNodeV::TraitObject { span } => Err(
            spec_conv_error(span, "Type"@, "RuaType"@, "unsupported type TraitObject"@),
        ),
        TypeNodeV::Tuple { elems, span } => match spec_tuple_from_node(elems, span) {
            Ok(t) => Ok(RuaTypeV::Tuple(t)),
            Err(e) => Err(spec_wrap_error(e, span, "Type"@, "RuaType"@)),
        },
        TypeNodeV::Verbatim { text, span } => Err(
            spec_conv_error(span, "Type"@, "RuaType"@, "unsupported type Verbatim: "@ + text),
        ),
        TypeNodeV::Other { span } => Err(
            spec_conv_error(span, "Type"@, "RuaType"@, "unsupported type"@),
        ),
    }
}

/// Converts a slice type's element.
fn slice_from_node(elem: &TypeNode, span: &Span) -> (r: Result<RuaSlice, ConversionError>)
    ensures
        view_result(r) == spec_slice_from_node(elem@, *span),
    decreases elem, 1int,
{
    match RuaType::try_from_node(elem) {
        Ok(t) => Ok(RuaSlice { ty: Box::new(t) }),
        Err(e) => Err(wrap_error(e, span, "TypeSlice", "RuaSlice")),
    }
}

/// Converts an array type's element and length.
fn array_from_node(elem: &TypeNode, len: &LenNode, span: &Span) -> (r: Result<
    RuaArray,
    ConversionError,
>)
    ensures
        view_result(r) == spec_array_from_node(elem@, len@, *span),
    decreases elem, 1int,
{
    match RuaType::try_from_node(elem) {
        Err(e) => Err(wrap_error(e, span, "TypeArray", "RuaArray")),
        Ok(t) => match crate::models::RuaArrayLen::try_from_node(len) {
            Err(e) => Err(wrap_error(e, span, "TypeArray", "RuaArray")),
            Ok(l) => Ok(RuaArray { ty: Box::new(t), len: l }),
        },
    }
}

/// Converts a tuple type's components, in order.
fn tuple_from_node(elems: &Vec<TypeNode>, span: &Span) -> (r: Result<RuaTuple, ConversionError>)
    ensures
        view_result(r) == spec_tuple_from_node(type_views(elems@), *span),
    decreases elems, 1int,
{
    let ghost sv = type_views(elems@);
    proof {
        lemma_type_views(elems@);
    }
    let n = elems.len();
    let mut out: Vec<RuaType> = Vec::new();
    proof {
        assert(sv.skip(0int) =~= sv);
        assert(out.deep_view() =~= Seq::<RuaTypeV>::empty());
        match spec_type_list(sv) {
            Ok(rest) => {
                assert(out.deep_view() + rest =~= rest);
            },
            Err(_) => {},
        }
    }
    let mut i: usize = 0;
    while i < n
        invariant
            0 <= i <= n,
            n == elems@.len(),
            sv == type_views(elems@),
            sv.len() == n,
            forall|j: int| 0 <= j < n ==> #[trigger] sv[j] == elems@[j]@,
            spec_type_list(sv) == (match spec_type_list(sv.skip(i as int)) {
                Ok(rest) => Ok(out.deep_view() + rest),
                Err(e) => Err::<Seq<RuaTypeV>, ConversionErrorV>(e),
            }),
        decreases n - i,
    {
        let ghost rest = sv.skip(i as int);
        proof {
            assert(rest[0] == sv[i as int]);
            assert(rest.drop_first() =~= sv.skip(i as int + 1));
        }
        proof {
            assert(decreases_to!(elems => elems@));
            assert(decreases_to!(elems@ => elems@[i as int]));
        }
        match RuaType::try_from_node(&elems[i]) {
            Err(e) => {
                return Err(wrap_error(e, span, "TypeTuple", "RuaTuple"));
            },
            Ok(t) => {
                let ghost oldv = out.deep_view();
                out.push(t);
                proof {
                    assert(out.deep_view() =~= oldv.push(t@));
                    assert(oldv.push(t@) =~= oldv + seq![t@]);
                    assert(out.deep_view() + spec_type_list_ok(sv.skip(i as int + 1)) =~= oldv
                        + (seq![t@] + spec_type_list_ok(sv.skip(i as int + 1))));
                }
            },
        }
        i = i + 1;
    }
    proof {
        assert(sv.skip(n as int) =~= Seq::<TypeNodeV>::empty());
        assert(out.deep_view() + Seq::<RuaTypeV>::empty() =~= out.deep_view());
        assert(crate::models::rua_type_views(out@) =~= out.deep_view()) by {
            crate::models::lemma_rua_type_views(out@);
        }
    }
    Ok(RuaTuple { tys: out })
}

/// The successful value of a type-list conversion; arbitrary when the
/// conversion fails.
pub open spec fn spec_type_list_ok(s: Seq<TypeNodeV>) -> Seq<RuaTypeV> {
    match spec_type_list(s) {
        Ok(tys) => tys,
        Err(_) => Seq::empty(),
    }
}

/// Converts a raw pointer type's pointee.
fn ptr_from_node(elem: &TypeNode, is_const: bool, span: &Span) -> (r: Result<
    RuaPointer,
    ConversionError,
>)
    ensures
        view_result(r) == spec_ptr_from_node(elem@, is_const, *span),
    decreases elem, 1int,
{
    match RuaType::try_from_node(elem) {
        Ok(t) => Ok(RuaPointer { is_const, ty: Box::new(t) }),
        Err(e) => Err(wrap_error(e, span, "TypePtr", "RuaPointer")),
    }
}

/// Converts a reference type's referent.
fn ref_from_node(elem: &TypeNode, is_mut: bool, span: &Span) -> (r: Result<
    RuaReference,
    ConversionError,
>)
    ensures
        view_result(r) == spec_ref_from_node(elem@, is_mut, *span),
    decreases elem, 1int,
{
    match RuaType::try_from_node(elem) {
        Ok(t) => Ok(RuaReference { is_mut, ty: Box::new(t) }),
        Err(e) => Err(wrap_error(e, span, "TypeReference", "RuaReference")),
    }
}

/// Converts a bare function's parameter types, in order; a failing
/// parameter is a parameter-position fault.
fn bare_params_from_node(params: &Vec<TypeNode>) -> (r: Result<Vec<RuaType>, ConversionError>)
    ensures
        match r {
            Ok(v) => spec_bare_param_list(type_views(params@)) == Ok::<
                Seq<RuaTypeV>,
                ConversionErrorV,
            >(v.deep_view()),
            Err(e) => spec_bare_param_list(type_views(params@)) == Err::<
                Seq<RuaTypeV>,
                ConversionErrorV,
            >(e@),
        },
    decreases params, 1int,
{
    let ghost pv = type_views(params@);
    proof {
        lemma_type_views(params@);
    }
    let m = params.len();
    let mut out: Vec<RuaType> = Vec::new();
    proof {
        assert(pv.skip(0int) =~= pv);
        assert(out.deep_view() =~= Seq::<RuaTypeV>::empty());
        match spec_bare_param_list(pv) {
            Ok(rest) => {
                assert(out.deep_view() + rest =~= rest);
            },
            Err(_) => {},
        }
    }
    let mut i: usize = 0;
    while i < m
        invariant
            0 <= i <= m,
            m == params@.len(),
            pv == type_views(params@),
            pv.len() == m,
            forall|j: int| 0 <= j < m ==> #[trigger] pv[j] == params@[j]@,
            spec_bare_param_list(pv) == (match spec_bare_param_list(pv.skip(i as int)) {
                Ok(rest) => Ok(out.deep_view() + rest),
                Err(e) => Err::<Seq<RuaTypeV>, ConversionErrorV>(e),
            }),
        decreases m - i,
    {
        let ghost rest = pv.skip(i as int);
        proof {
            assert(rest[0] == pv[i as int]);
            assert(rest.drop_first() =~= pv.skip(i as int + 1));
            assert(decreases_to!(params => params@));
            assert(decreases_to!(params@ => params@[i as int]));
        }
        match RuaType::try_from_node(&params[i]) {
            Err(e) => {
                let pspan = type_node_span(&params[i]);
                return Err(wrap_error(e, &pspan, "BareFnArg", "RuaType"));
            },
            Ok(t) => {
                let ghost oldv = out.deep_view();
                out.push(t);
                proof {
                    assert(out.deep_view() =~= oldv.push(t@));
                    assert(oldv.push(t@) =~= oldv + seq![t@]);
                    assert(out.deep_view() + spec_bare_param_list_ok(pv.skip(i as int + 1)) =~=
                        oldv + (seq![t@] + spec_bare_param_list_ok(pv.skip(i as int + 1))));
                }
            },
        }
        i = i + 1;
    }
    proof {
        assert(pv.skip(m as int) =~= Seq::<TypeNodeV>::empty());
        assert(out.deep_view() + Seq::<RuaTypeV>::empty() =~= out.deep_view());
    }
    Ok(out)
}

/// The view of an optional boxed type expression.
pub open spec fn spec_opt_box_view(o: Option<Box<TypeNode>>) -> Option<Box<TypeNodeV>> {
    match o {
        Some(b) => Some(Box::new((*b)@)),
        None => None,
    }
}

/// Converts a bare function's return type; an absent one defaults to
/// the unit type.
fn bare_ret_from_node(ret: &Option<Box<TypeNode>>) -> (r: Result<RuaType, ConversionError>)
    ensures
        view_result(r) == spec_bare_ret(spec_opt_box_view(*ret)),
    decreases ret, 1int,
{
    match ret {
        None => Ok(RuaType::Unit),
        Some(b) => {
            proof {
                assert(decreases_to!(*ret => *b));
            }
            match RuaType::try_from_node(&**b) {
                Err(e) => {
                    let rspan = type_node_span(&**b);
                    Err(wrap_error(e, &rspan, "ReturnType", "RuaType"))
                },
                Ok(rt) => Ok(rt),
            }
        },
    }
}

impl RuaType {
    /// Converts a type expression, switching on its syntactic
    /// category; the unsupported categories always fail with a
    /// message naming the category.
    #[verifier::rlimit(100)]
    #[verifier::spinoff_prover]
    pub fn try_from_node(n: &TypeNode) -> (r: Result<RuaType, ConversionError>)
        ensures
            view_result(r) == spec_type_from_node(n@),
        decreases n, 0int,
    {
        match n {
            TypeNode::Array { elem, len, span } => {
                let r0 = match array_from_node(&**elem, len, span) {
                    Ok(a) => Ok(RuaType::Array(a)),
                    Err(e) => Err(wrap_error(e, span, "Type", "RuaType")),
                };
                proof {
                    assert(view_result(r0) == spec_type_from_node(n@));
                }
                r0
            },
            TypeNode::BareFn { params, ret, span } => {
                proof {
                    assert(n@ == TypeNodeV::BareFn {
                        params: type_views(params@),
                        ret: spec_opt_box_view(*ret),
                        span: *span,
                    });
                }
                match bare_params_from_node(params) {
                    Err(e) => {
                        let e1 = wrap_error(e, span, "TypeBareFn", "RuaFn");
                        Err(wrap_error(e1, span, "Type", "RuaType"))
                    },
                    Ok(out) => match bare_ret_from_node(ret) {
                        Err(e) => {
                            let e1 = wrap_error(e, span, "TypeBareFn", "RuaFn");
                            Err(wrap_error(e1, span, "Type", "RuaType"))
                        },
                        Ok(ret_ty) => {
                            let ghost gout = out.deep_view();
                            let ghost gret = ret_ty@;
                            proof {
                                assert(crate::models::rua_type_views(out@) =~= out.deep_view())
                                    by {
                                    crate::models::lemma_rua_type_views(out@);
                                }
                                assert(spec_bare_param_list(type_views(params@)) == Ok::<
                                    Seq<RuaTypeV>,
                                    ConversionErrorV,
                                >(gout));
                                assert(spec_bare_ret(spec_opt_box_view(*ret)) == Ok::<
                                    RuaTypeV,
                                    ConversionErrorV,
                                >(gret));
                                assert(spec_type_from_node(n@) == Ok::<
                                    RuaTypeV,
                                    ConversionErrorV,
                                >(
                                    RuaTypeV::Fn(
                                        RuaFnV::Bare(
                                            RuaBareFnV { params: gout, ret: Box::new(gret) },
                                        ),
                                    ),
                                ));
                            }
                            let bf = RuaBareFn { params: out, ret: Box::new(ret_ty) };
                            proof {
                                assert(bf@ == (RuaBareFnV { params: gout, ret: Box::new(gret) }));
                            }
                            let f = RuaFn::Bare(bf);
                            proof {
                                assert(f@ == RuaFnV::Bare(
                                    RuaBareFnV { params: gout, ret: Box::new(gret) },
                                ));
                            }
                            let val = RuaType::Fn(f);
                            proof {
                                assert(val@ == RuaTypeV::Fn(
                                    RuaFnV::Bare(RuaBareFnV { params: gout, ret: Box::new(gret) }),
                                ));
                            }
                            Ok(val)
                        },
                    },
                }
            },
            TypeNode::Group { span } => {
                let e = conv_error(span, "Type", "RuaType", owned("unsupported type Group"));
                proof {
                    assert(Err::<RuaTypeV, ConversionErrorV>(e@) == spec_type_from_node(n@));
                }
                Err(e)
            },
            TypeNode::ImplTrait { span } => {
                let e = conv_error(span, "Type", "RuaType", owned("unsupported type ImplTrait"));
                proof {
                    assert(Err::<RuaTypeV, ConversionErrorV>(e@) == spec_type_from_node(n@));
                }
                Err(e)
            },
            TypeNode::Infer { span } => {
                let e = conv_error(
                    span,
                    "Type",
                    "RuaType",
                    owned("unsupported type Infer, please specify the type explicitly"),
                );
                proof {
                    assert(Err::<RuaTypeV, ConversionErrorV>(e@) == spec_type_from_node(n@));
                }
                Err(e)
            },
            TypeNode::Macro { span } => {
                let e = conv_error(span, "Type", "RuaType", owned("unsupported type Macro"));
                proof {
                    assert(Err::<RuaTypeV, ConversionErrorV>(e@) == spec_type_from_node(n@));
                }
                Err(e)
            },
            TypeNode::Never { span } => {
                let e = conv_error(span, "Type", "RuaType", owned("unsupported type Never"));
                proof {
                    assert(Err::<RuaTypeV, ConversionErrorV>(e@) == spec_type_from_node(n@));
                }
                Err(e)
            },
            TypeNode::Paren { span } => {
                let e = conv_error(span, "Type", "RuaType", owned("unsupported type Paren"));
                proof {
                    assert(Err::<RuaTypeV, ConversionErrorV>(e@) == spec_type_from_node(n@));
                }
                Err(e)
            },
            TypeNode::Path { segments, span } => {
                let r0 = match path_type_from_node(segments, span) {
                    Ok(t) => Ok(t),
                    Err(e) => Err(wrap_error(e, span, "Type", "RuaType")),
                };
                proof {
                    assert(view_result(r0) == spec_type_from_node(n@));
                }
                r0
            },
            TypeNode::Ptr { is_const, elem, span } => {
                let r0 = match ptr_from_node(&**elem, *is_const, span) {
                    Ok(p) => Ok(RuaType::Pointer(p)),
                    Err(e) => Err(wrap_error(e, span, "Type", "RuaType")),
                };
                proof {
                    assert(view_result(r0) == spec_type_from_node(n@));
                }
                r0
            },
            TypeNode::Reference { is_mut, elem, span } => {
                let r0 = match ref_from_node(&**elem, *is_mut, span) {
                    Ok(rf) => Ok(RuaType::Reference(rf)),
                    Err(e) => Err(wrap_error(e, span, "Type", "RuaType")),
                };
                proof {
                    assert(view_result(r0) == spec_type_from_node(n@));
                }
                r0
            },
            TypeNode::Slice { elem, span } => {
                let r0 = match slice_from_node(&**elem, span) {
                    Ok(s) => Ok(RuaType::Slice(s)),
                    Err(e) => Err(wrap_error(e, span, "Type", "RuaType")),
                };
                proof {
                    assert(view_result(r0) == spec_type_from_node(n@));
                }
                r0
            },
            TypeNode::TraitObject { span } => {
                let e = conv_error(span, "Type", "RuaType", owned("unsupported type TraitObject"));
                proof {
                    assert(Err::<RuaTypeV, ConversionErrorV>(e@) == spec_type_from_node(n@));
                }
                Err(e)
            },
            TypeNode::Tuple { elems, span } => {
                let r0 = match tuple_from_node(elems, span) {
                    Ok(t) => Ok(RuaType::Tuple(t)),
                    Err(e) => Err(wrap_error(e, span, "Type", "RuaType")),
                };
                proof {
                    assert(view_result(r0) == spec_type_from_node(n@));
                }
                r0
            },
            TypeNode::Verbatim { text, span } => {
                let mut msg = String::new();
                msg.append("unsupported type Verbatim: ");
                msg.append(text.as_str());
                proof {
                    assert(msg@ =~= "unsupported type Verbatim: "@ + text@);
                }
                let e = conv_error(span, "Type", "RuaType", msg);
                proof {
                    assert(Err::<RuaTypeV, ConversionErrorV>(e@) == spec_type_from_node(n@));
                }
                Err(e)
            },
            TypeNode::Other { span } => {
                let e = conv_error(span, "Type", "RuaType", owned("unsupported type"));
                proof {
                    assert(Err::<RuaTypeV, ConversionErrorV>(e@) == spec_type_from_node(n@));
                }
                Err(e)
            },
        }
    }
}

/// The successful value of a bare-parameter-list conversion;
/// arbitrary when the conversion fails.
pub open spec fn spec_bare_param_list_ok(s: Seq<TypeNodeV>) -> Seq<RuaTypeV> {
    match spec_bare_param_list(s) {
        Ok(tys) => tys,
        Err(_) => Seq::empty(),
    }
}

/// Variable conversion from a typed binding: the pattern must be a
/// plain identifier, and both the name and the type must convert.
pub open spec fn spec_var_from_pat_type(pat: PatNodeV, ty: TypeNodeV, span: Span) -> Result<
    RuaVarV,
    ConversionErrorV,
> {
    match pat {
        PatNodeV::Ident { name, span: pspan } => match spec_name_from_ident(name, pspan) {
            Err(e) => Err(spec_wrap_error(e, span, "PatType"@, "RuaVar"@)),
            Ok(nm) => match spec_type_from_node(ty) {
                Err(e) => Err(spec_wrap_error(e, span, "PatType"@, "RuaVar"@)),
                Ok(t) => Ok(RuaVarV { name: nm, ty: Box::new(t) }),
            },
        },
        PatNodeV::Other { span: _ } => Err(
            spec_conv_error(
                span,
                "PatType"@,
                "RuaVar"@,
                "unsupported pattern type, only Ident is supported"@,
            ),
        ),
    }
}

/// Variable conversion from a function parameter: a receiver-style
/// self parameter always fails.
pub open spec fn spec_var_from_param(p: ParamNodeV) -> Result<RuaVarV, ConversionErrorV> {
    match p {
        ParamNodeV::Receiver { span } => Err(
            spec_conv_error(span, "FnArg"@, "RuaVar"@, "receiver is not supported"@),
        ),
        ParamNodeV::Typed { pat, ty, span } => match spec_var_from_pat_type(pat, ty, span) {
            Err(e) => Err(spec_wrap_error(e, span, "FnArg"@, "RuaVar"@)),
            Ok(v) => Ok(v),
        },
    }
}

/// Variable conversion from a struct field: the field must be named,
/// and both the name and the type must convert.
pub open spec fn spec_var_from_field(f: FieldNodeV) -> Result<RuaVarV, ConversionErrorV> {
    match f.name {
        None => Err(spec_conv_error(f.span, "Field"@, "RuaVar"@, "field name is required"@)),
        Some(nm) => match spec_name_from_ident(nm, f.span) {
            Err(e) => Err(spec_wrap_error(e, f.span, "Field"@, "RuaVar"@)),
            Ok(n2) => match spec_type_from_node(f.ty) {
                Err(e) => Err(spec_wrap_error(e, f.span, "Field"@, "RuaVar"@)),
                Ok(t) => Ok(RuaVarV { name: n2, ty: Box::new(t) }),
            },
        },
    }
}

impl RuaVar {
    /// Converts a function parameter into a variable; a
    /// receiver-style self parameter always fails.
    pub fn try_from_param(p: &ParamNode) -> (r: Result<RuaVar, ConversionError>)
        ensures
            view_result(r) == spec_var_from_param(p@),
    {
        match p {
            ParamNode::Receiver { span } => Err(
                conv_error(span, "FnArg", "RuaVar", owned("receiver is not supported")),
            ),
            ParamNode::Typed { pat, ty, span } => {
                let r0 = match pat {
                    crate::nodes::PatNode::Ident { name, span: pspan } => {
                        match RuaName::try_from_ident(name.as_str(), pspan) {
                            Err(e) => Err(wrap_error(e, span, "PatType", "RuaVar")),
                            Ok(nm) => match RuaType::try_from_node(ty) {
                                Err(e) => Err(wrap_error(e, span, "PatType", "RuaVar")),
                                Ok(t) => Ok(RuaVar { name: nm, ty: Box::new(t) }),
                            },
                        }
                    },
                    crate::nodes::PatNode::Other { span: _ } => Err(
                        conv_error(
                            span,
                            "PatType",
                            "RuaVar",
                            owned("unsupported pattern type, only Ident is supported"),
                        ),
                    ),
                };
                match r0 {
                    Ok(v) => Ok(v),
                    Err(e) => {
                        proof {
                            assert(spec_var_from_pat_type(pat@, ty@, *span) == Err::<
                                RuaVarV,
                                ConversionErrorV,
                            >(e@));
                        }
                        Err(wrap_error(e, span, "FnArg", "RuaVar"))
                    },
                }
            },
        }
    }

    /// Converts a struct field into a variable; the field must be
    /// named.
    pub fn try_from_field(f: &FieldNode) -> (r: Result<RuaVar, ConversionError>)
        ensures
            view_result(r) == spec_var_from_field(f@),
    {
        match &f.name {
            None => Err(conv_error(&f.span, "Field", "RuaVar", owned("field name is required"))),
            Some(nm) => match RuaName::try_from_ident(nm.as_str(), &f.span) {
                Err(e) => Err(wrap_error(e, &f.span, "Field", "RuaVar")),
                Ok(n2) => match RuaType::try_from_node(&f.ty) {
                    Err(e) => Err(wrap_error(e, &f.span, "Field", "RuaVar")),
                    Ok(t) => Ok(RuaVar { name: n2, ty: Box::new(t) }),
                },
            },
        }
    }
}

/// The conversions of a named field list into variables; the first
/// failure wins, unwrapped.
pub open spec fn spec_field_var_list(fs: Seq<FieldNodeV>) -> Result<Seq<RuaVarV>, ConversionErrorV>
    decreases fs,
{
    if fs.len() == 0 {
        Ok(Seq::empty())
    } else {
        match spec_var_from_field(fs[0]) {
            Err(e) => Err(e),
            Ok(v) => match spec_field_var_list(fs.drop_first()) {
                Ok(rest) => Ok(seq![v] + rest),
                Err(e) => Err(e),
            },
        }
    }
}

/// The conversions of a positional field list into types; the first
/// failure wins, unwrapped.
pub open spec fn spec_field_type_list(fs: Seq<FieldNodeV>) -> Result<
    Seq<RuaTypeV>,
    ConversionErrorV,
>
    decreases fs,
{
    if fs.len() == 0 {
        Ok(Seq::empty())
    } else {
        match spec_type_from_node(fs[0].ty) {
            Err(e) => Err(e),
            Ok(t) => match spec_field_type_list(fs.drop_first()) {
                Ok(rest) => Ok(seq![t] + rest),
                Err(e) => Err(e),
            },
        }
    }
}

/// Converts the named fields of a struct or variant, in order.
fn convert_named_fields(fields: &Vec<FieldNode>) -> (r: Result<Vec<RuaVar>, ConversionError>)
    ensures
        match r {
            Ok(v) => spec_field_var_list(fields.deep_view()) == Ok::<
                Seq<RuaVarV>,
                ConversionErrorV,
            >(v.deep_view()),
            Err(e) => spec_field_var_list(fields.deep_view()) == Err::<
                Seq<RuaVarV>,
                ConversionErrorV,
            >(e@),
        },
{
    let ghost fv = fields.deep_view();
    let m = fields.len();
    let mut out: Vec<RuaVar> = Vec::new();
    proof {
        assert(fv.skip(0int) =~= fv);
        assert(out.deep_view() =~= Seq::<RuaVarV>::empty());
        match spec_field_var_list(fv) {
            Ok(rest) => {
                assert(out.deep_view() + rest =~= rest);
            },
            Err(_) => {},
        }
    }
    let mut i: usize = 0;
    while i < m
        invariant
            0 <= i <= m,
            m == fields@.len(),
            fv == fields.deep_view(),
            fv.len() == m,
            spec_field_var_list(fv) == (match spec_field_var_list(fv.skip(i as int)) {
                Ok(rest) => Ok(out.deep_view() + rest),
                Err(e) => Err::<Seq<RuaVarV>, ConversionErrorV>(e),
            }),
        decreases m - i,
    {
        let ghost rest = fv.skip(i as int);
        proof {
            assert(rest[0] == fv[i as int]);
            assert(fv[i as int] == fields@[i as int]@);
            assert(rest.drop_first() =~= fv.skip(i as int + 1));
        }
        match RuaVar::try_from_field(&fields[i]) {
            Err(e) => {
                return Err(e);
            },
            Ok(v) => {
                let ghost oldv = out.deep_view();
                out.push(v);
                proof {
                    assert(out.deep_view() =~= oldv.push(v@));
                    assert(oldv.push(v@) =~= oldv + seq![v@]);
                    assert(out.deep_view() + spec_field_var_list_ok(fv.skip(i as int + 1)) =~=
                        oldv + (seq![v@] + spec_field_var_list_ok(fv.skip(i as int + 1))));
                }
            },
        }
        i = i + 1;
    }
    proof {
        assert(fv.skip(m as int) =~= Seq::<FieldNodeV>::empty());
        assert(out.deep_view() + Seq::<RuaVarV>::empty() =~= out.deep_view());
    }
    Ok(out)
}

/// The successful value of a named-field-list conversion; arbitrary
/// when the conversion fails.
pub open spec fn spec_field_var_list_ok(fs: Seq<FieldNodeV>) -> Seq<RuaVarV> {
    match spec_field_var_list(fs) {
        Ok(vs) => vs,
        Err(_) => Seq::empty(),
    }
}

/// Converts the positional fields of a struct or variant, in order.
fn convert_unnamed_fields(fields: &Vec<FieldNode>) -> (r: Result<Vec<RuaType>, ConversionError>)
    ensures
        match r {
            Ok(v) => spec_field_type_list(fields.deep_view()) == Ok::<
                Seq<RuaTypeV>,
                ConversionErrorV,
            >(v.deep_view()),
            Err(e) => spec_field_type_list(fields.deep_view()) == Err::<
                Seq<RuaTypeV>,
                ConversionErrorV,
            >(e@),
        },
{
    let ghost fv = fields.deep_view();
    let m = fields.len();
    let mut out: Vec<RuaType> = Vec::new();
    proof {
        assert(fv.skip(0int) =~= fv);
        assert(out.deep_view() =~= Seq::<RuaTypeV>::empty());
        match spec_field_type_list(fv) {
            Ok(rest) => {
                assert(out.deep_view() + rest =~= rest);
            },
            Err(_) => {},
        }
    }
    let mut i: usize = 0;
    while i < m
        invariant
            0 <= i <= m,
            m == fields@.len(),
            fv == fields.deep_view(),
            fv.len() == m,
            spec_field_type_list(fv) == (match spec_field_type_list(fv.skip(i as int)) {
                Ok(rest) => Ok(out.deep_view() + rest),
                Err(e) => Err::<Seq<RuaTypeV>, ConversionErrorV>(e),
            }),
        decreases m - i,
    {
        let ghost rest = fv.skip(i as int);
        proof {
            assert(rest[0] == fv[i as int]);
            assert(fv[i as int] == fields@[i as int]@);
            assert(rest.drop_first() =~= fv.skip(i as int + 1));
        }
        match RuaType::try_from_node(&fields[i].ty) {
            Err(e) => {
                return Err(e);
            },
            Ok(t) => {
                let ghost oldv = out.deep_view();
                out.push(t);
                proof {
                    assert(out.deep_view() =~= oldv.push(t@));
                    assert(oldv.push(t@) =~= oldv + seq![t@]);
                    assert(out.deep_view() + spec_field_type_list_ok(fv.skip(i as int + 1)) =~=
                        oldv + (seq![t@] + spec_field_type_list_ok(fv.skip(i as int + 1))));
                }
            },
        }
        i = i + 1;
    }
    proof {
        assert(fv.skip(m as int) =~= Seq::<FieldNodeV>::empty());
        assert(out.deep_view() + Seq::<RuaTypeV>::empty() =~= out.deep_view());
    }
    Ok(out)
}

/// The successful value of a positional-field-list conversion;
/// arbitrary when the conversion fails.
pub open spec fn spec_field_type_list_ok(fs: Seq<FieldNodeV>) -> Seq<RuaTypeV> {
    match spec_field_type_list(fs) {
        Ok(ts) => ts,
        Err(_) => Seq::empty(),
    }
}

/// Struct-shape conversion: named fields, positional fields or no
/// fields classify into the three struct shapes; `st` tags which
/// enclosing node kind is converting.
pub open spec fn spec_convert_fields(
    name: Seq<char>,
    fields: FieldsNodeV,
    span: Span,
    st: Seq<char>,
) -> Result<RuaStructV, ConversionErrorV> {
    match fields {
        FieldsNodeV::Named { fields: fs } => match spec_field_var_list(fs) {
            Err(e) => Err(spec_wrap_error(e, span, st, "RuaStruct"@)),
            Ok(vars) => match spec_name_from_ident(name, span) {
                Err(e) => Err(spec_wrap_error(e, span, st, "RuaStruct"@)),
                Ok(nm) => Ok(RuaStructV::Named(RuaNamedStructV { name: nm, fields: vars })),
            },
        },
        FieldsNodeV::Unnamed { fields: fs } => match spec_field_type_list(fs) {
            Err(e) => Err(spec_wrap_error(e, span, st, "RuaStruct"@)),
            Ok(tys) => match spec_name_from_ident(name, span) {
                Err(e) => Err(spec_wrap_error(e, span, st, "RuaStruct"@)),
                Ok(nm) => Ok(RuaStructV::Tuple(RuaTupleStructV { name: nm, tys })),
            },
        },
        FieldsNodeV::Unit => match spec_name_from_ident(name, span) {
            Err(e) => Err(spec_wrap_error(e, span, st, "RuaStruct"@)),
            Ok(nm) => Ok(RuaStructV::Unit(RuaUnitStructV { name: nm })),
        },
    }
}

/// Converts a name and a field shape into a struct shape.
fn convert_fields(name: &str, fields: &FieldsNode, span: &Span, st: &str) -> (r: Result<
    RuaStruct,
    ConversionError,
>)
    ensures
        view_result(r) == spec_convert_fields(name@, fields@, *span, st@),
{
    match fields {
        FieldsNode::Named { fields: fs } => match convert_named_fields(fs) {
            Err(e) => Err(wrap_error(e, span, st, "RuaStruct")),
            Ok(vars) => match RuaName::try_from_ident(name, span) {
                Err(e) => Err(wrap_error(e, span, st, "RuaStruct")),
                Ok(nm) => {
                    let ns = RuaNamedStruct { name: nm, fields: vars };
                    proof {
                        assert(crate::models::rua_var_views(ns.fields@) =~= ns.fields.deep_view())
                            by {
                            crate::models::lemma_rua_var_views(ns.fields@);
                        }
                    }
                    Ok(RuaStruct::Named(ns))
                },
            },
        },
        FieldsNode::Unnamed { fields: fs } => match convert_unnamed_fields(fs) {
            Err(e) => Err(wrap_error(e, span, st, "RuaStruct")),
            Ok(tys) => match RuaName::try_from_ident(name, span) {
                Err(e) => Err(wrap_error(e, span, st, "RuaStruct")),
                Ok(nm) => {
                    let ts = RuaTupleStruct { name: nm, tys };
                    proof {
                        assert(crate::models::rua_type_views(ts.tys@) =~= ts.tys.deep_view())
                            by {
                            crate::models::lemma_rua_type_views(ts.tys@);
                        }
                    }
                    Ok(RuaStruct::Tuple(ts))
                },
            },
        },
        FieldsNode::Unit => match RuaName::try_from_ident(name, span) {
            Err(e) => Err(wrap_error(e, span, st, "RuaStruct")),
            Ok(nm) => Ok(RuaStruct::Unit(RuaUnitStruct { name: nm })),
        },
    }
}

/// Struct conversion: classifies the declaration's field shape.
pub open spec fn spec_struct_from_node(s: StructNodeV) -> Result<RuaStructV, ConversionErrorV> {
    spec_convert_fields(s.name, s.fields, s.span, "ItemStruct"@)
}

/// Enum-variant conversion: classifies the variant's field shape,
/// keyed on the variant's identifier.
pub open spec fn spec_struct_from_variant(v: VariantNodeV) -> Result<RuaStructV, ConversionErrorV> {
    spec_convert_fields(v.name, v.fields, v.span, "Variant"@)
}

impl RuaStruct {
    /// Converts a struct declaration into a struct shape.
    pub fn try_from_struct_node(s: &StructNode) -> (r: Result<RuaStruct, ConversionError>)
        ensures
            view_result(r) == spec_struct_from_node(s@),
    {
        convert_fields(s.name.as_str(), &s.fields, &s.span, "ItemStruct")
    }

    /// Converts an enum variant into a struct shape keyed on the
    /// variant's identifier.
    pub fn try_from_variant_node(v: &VariantNode) -> (r: Result<RuaStruct, ConversionError>)
        ensures
            view_result(r) == spec_struct_from_variant(v@),
    {
        convert_fields(v.name.as_str(), &v.fields, &v.span, "Variant")
    }
}

/// The conversions of an enum's variant list; the first failure wins,
/// unwrapped.
pub open spec fn spec_variant_list(vs: Seq<VariantNodeV>) -> Result<
    Seq<RuaStructV>,
    ConversionErrorV,
>
    decreases vs,
{
    if vs.len() == 0 {
        Ok(Seq::empty())
    } else {
        match spec_struct_from_variant(vs[0]) {
            Err(e) => Err(e),
            Ok(v) => match spec_variant_list(vs.drop_first()) {
                Ok(rest) => Ok(seq![v] + rest),
                Err(e) => Err(e),
            },
        }
    }
}

/// The successful value of a variant-list conversion; arbitrary when
/// the conversion fails.
pub open spec fn spec_variant_list_ok(vs: Seq<VariantNodeV>) -> Seq<RuaStructV> {
    match spec_variant_list(vs) {
        Ok(ss) => ss,
        Err(_) => Seq::empty(),
    }
}

/// Enum conversion: converts every variant, then the enum's own name.
pub open spec fn spec_enum_from_node(e: EnumNodeV) -> Result<RuaEnumV, ConversionErrorV> {
    match spec_variant_list(e.variants) {
        Err(x) => Err(spec_wrap_error(x, e.span, "ItemEnum"@, "RuaEnum"@)),
        Ok(vars) => match spec_name_from_ident(e.name, e.span) {
            Err(x) => Err(spec_wrap_error(x, e.span, "ItemEnum"@, "RuaEnum"@)),
            Ok(nm) => Ok(RuaEnumV { name: nm, variants: vars }),
        },
    }
}

impl RuaEnum {
    /// Converts an enum declaration: every variant via struct-shape
    /// conversion, then the enum's own name.
    pub fn try_from_node(e: &EnumNode) -> (r: Result<RuaEnum, ConversionError>)
        ensures
            view_result(r) == spec_enum_from_node(e@),
    {
        let ghost vv = e.variants.deep_view();
        let m = e.variants.len();
        let mut out: Vec<RuaStruct> = Vec::new();
        proof {
            assert(vv.skip(0int) =~= vv);
            assert(out.deep_view() =~= Seq::<RuaStructV>::empty());
            match spec_variant_list(vv) {
                Ok(rest) => {
                    assert(out.deep_view() + rest =~= rest);
                },
                Err(_) => {},
            }
        }
        let mut i: usize = 0;
        while i < m
            invariant
                0 <= i <= m,
                m == e.variants@.len(),
                vv == e.variants.deep_view(),
                vv.len() == m,
                spec_variant_list(vv) == (match spec_variant_list(vv.skip(i as int)) {
                    Ok(rest) => Ok(out.deep_view() + rest),
                    Err(x) => Err::<Seq<RuaStructV>, ConversionErrorV>(x),
                }),
            decreases m - i,
        {
            let ghost rest = vv.skip(i as int);
            proof {
                assert(rest[0] == vv[i as int]);
                assert(vv[i as int] == e.variants@[i as int]@);
                assert(rest.drop_first() =~= vv.skip(i as int + 1));
            }
            match RuaStruct::try_from_variant_node(&e.variants[i]) {
                Err(x) => {
                    return Err(wrap_error(x, &e.span, "ItemEnum", "RuaEnum"));
                },
                Ok(v) => {
                    let ghost oldv = out.deep_view();
                    out.push(v);
                    proof {
                        assert(out.deep_view() =~= oldv.push(v@));
                        assert(oldv.push(v@) =~= oldv + seq![v@]);
                        assert(out.deep_view() + spec_variant_list_ok(vv.skip(i as int + 1)) =~=
                            oldv + (seq![v@] + spec_variant_list_ok(vv.skip(i as int + 1))));
                    }
                },
            }
            i = i + 1;
        }
        proof {
            assert(vv.skip(m as int) =~= Seq::<VariantNodeV>::empty());
            assert(out.deep_view() + Seq::<RuaStructV>::empty() =~= out.deep_view());
        }
        match RuaName::try_from_ident(e.name.as_str(), &e.span) {
            Err(x) => Err(wrap_error(x, &e.span, "ItemEnum", "RuaEnum")),
            Ok(nm) => {
                let en = RuaEnum { name: nm, variants: out };
                proof {
                    assert(crate::models::rua_struct_views(en.variants@) =~= en
                        .variants
                        .deep_view()) by {
                        crate::models::lemma_rua_struct_views(en.variants@);
                    }
                }
                Ok(en)
            },
        }
    }
}

/// The conversions of a function's parameter list; the first failure
/// wins, unwrapped.
pub open spec fn spec_param_list(ps: Seq<ParamNodeV>) -> Result<Seq<RuaVarV>, ConversionErrorV>
    decreases ps,
{
    if ps.len() == 0 {
        Ok(Seq::empty())
    } else {
        match spec_var_from_param(ps[0]) {
            Err(e) => Err(e),
            Ok(v) => match spec_param_list(ps.drop_first()) {
                Ok(rest) => Ok(seq![v] + rest),
                Err(e) => Err(e),
            },
        }
    }
}

/// The successful value of a parameter-list conversion; arbitrary
/// when the conversion fails.
pub open spec fn spec_param_list_ok(ps: Seq<ParamNodeV>) -> Seq<RuaVarV> {
    match spec_param_list(ps) {
        Ok(vs) => vs,
        Err(_) => Seq::empty(),
    }
}

/// Return-type conversion for a function declaration: an absent
/// return type defaults to the unit type.
pub open spec fn spec_ret_from_opt(o: Option<TypeNodeV>) -> Result<RuaTypeV, ConversionErrorV> {
    match o {
        None => Ok(RuaTypeV::Unit),
        Some(t) => match spec_type_from_node(t) {
            Err(e) => Err(spec_wrap_error(e, spec_type_node_span(t), "ReturnType"@, "RuaType"@)),
            Ok(rt) => Ok(rt),
        },
    }
}

/// Converts a function declaration's return type; an absent one
/// defaults to the unit type.
fn ret_from_opt(o: &Option<TypeNode>) -> (r: Result<RuaType, ConversionError>)
    ensures
        view_result(r) == spec_ret_from_opt(o.deep_view()),
{
    match o {
        None => Ok(RuaType::Unit),
        Some(t) => match RuaType::try_from_node(t) {
            Err(e) => {
                let sp = type_node_span(t);
                Err(wrap_error(e, &sp, "ReturnType", "RuaType"))
            },
            Ok(rt) => Ok(rt),
        },
    }
}

/// Function conversion: every parameter, then the return type, then
/// the function's own name, into a named signature.
pub open spec fn spec_sig_fn_from_node(f: FnNodeV) -> Result<RuaSigFnV, ConversionErrorV> {
    match spec_param_list(f.params) {
        Err(e) => Err(spec_wrap_error(e, f.span, "ItemFn"@, "RuaFn"@)),
        Ok(ps) => match spec_ret_from_opt(f.ret) {
            Err(e) => Err(spec_wrap_error(e, f.span, "ItemFn"@, "RuaFn"@)),
            Ok(rt) => match spec_name_from_ident(f.name, f.span) {
                Err(e) => Err(spec_wrap_error(e, f.span, "ItemFn"@, "RuaFn"@)),
                Ok(nm) => Ok(RuaSigFnV { name: nm, params: ps, ret: Box::new(rt) }),
            },
        },
    }
}

impl RuaSigFn {
    /// Converts a function declaration into a named signature: its
    /// parameters in order, its return type and its name.
    pub fn try_from_node(f: &FnNode) -> (r: Result<RuaSigFn, ConversionError>)
        ensures
            view_result(r) == spec_sig_fn_from_node(f@),
    {
        let ghost pv = f.params.deep_view();
        let m = f.params.len();
        let mut out: Vec<RuaVar> = Vec::new();
        proof {
            assert(pv.skip(0int) =~= pv);
            assert(out.deep_view() =~= Seq::<RuaVarV>::empty());
            match spec_param_list(pv) {
                Ok(rest) => {
                    assert(out.deep_view() + rest =~= rest);
                },
                Err(_) => {},
            }
        }
        let mut i: usize = 0;
        while i < m
            invariant
                0 <= i <= m,
                m == f.params@.len(),
                pv == f.params.deep_view(),
                pv.len() == m,
                spec_param_list(pv) == (match spec_param_list(pv.skip(i as int)) {
                    Ok(rest) => Ok(out.deep_view() + rest),
                    Err(e) => Err::<Seq<RuaVarV>, ConversionErrorV>(e),
                }),
            decreases m - i,
        {
            let ghost rest = pv.skip(i as int);
            proof {
                assert(rest[0] == pv[i as int]);
                assert(pv[i as int] == f.params@[i as int]@);
                assert(rest.drop_first() =~= pv.skip(i as int + 1));
            }
            match RuaVar::try_from_param(&f.params[i]) {
                Err(e) => {
                    return Err(wrap_error(e, &f.span, "ItemFn", "RuaFn"));
                },
                Ok(v) => {
                    let ghost oldv = out.deep_view();
                    out.push(v);
                    proof {
                        assert(out.deep_view() =~= oldv.push(v@));
                        assert(oldv.push(v@) =~= oldv + seq![v@]);
                        assert(out.deep_view() + spec_param_list_ok(pv.skip(i as int + 1)) =~=
                            oldv + (seq![v@] + spec_param_list_ok(pv.skip(i as int + 1))));
                    }
                },
            }
            i = i + 1;
        }
        proof {
            assert(pv.skip(m as int) =~= Seq::<ParamNodeV>::empty());
            assert(out.deep_view() + Seq::<RuaVarV>::empty() =~= out.deep_view());
        }
        match ret_from_opt(&f.ret) {
            Err(e) => Err(wrap_error(e, &f.span, "ItemFn", "RuaFn")),
            Ok(rt) => match RuaName::try_from_ident(f.name.as_str(), &f.span) {
                Err(e) => Err(wrap_error(e, &f.span, "ItemFn", "RuaFn")),
                Ok(nm) => {
                    let sf = RuaSigFn { name: nm, params: out, ret: Box::new(rt) };
                    proof {
                        assert(crate::models::rua_var_views(sf.params@) =~= sf
                            .params
                            .deep_view()) by {
                            crate::models::lemma_rua_var_views(sf.params@);
                        }
                    }
                    Ok(sf)
                },
            },
        }
    }
}

/// The three recognized casings are pairwise disjoint: an identifier
/// matches at most one of snake_case, camelCase and PascalCase.
pub proof fn lemma_casings_disjoint(name: Seq<char>)
    ensures
        !(spec_is_snake_case(name) && spec_is_camel_case(name)),
        !(spec_is_snake_case(name) && spec_is_pascal_case(name)),
        !(spec_is_camel_case(name) && spec_is_pascal_case(name)),
{
    if spec_is_camel_case(name) && spec_is_pascal_case(name) {
        assert(crate::utils::spec_is_lower(name[0]) && crate::utils::spec_is_upper(name[0]));
        assert(false);
    }
}

/// Name construction classifies casings: an identifier matching one
/// of the three recognized casings yields a name tagged with exactly
/// that casing, and an identifier matching none fails.
pub proof fn lemma_name_classification(name: Seq<char>, span: Span)
    ensures
        spec_is_snake_case(name) ==> spec_name_from_ident(name, span) == Ok::<
            RuaNameV,
            ConversionErrorV,
        >(RuaNameV { name, case: RuaCase::SnakeCase, matches_case: true }),
        spec_is_camel_case(name) ==> spec_name_from_ident(name, span) == Ok::<
            RuaNameV,
            ConversionErrorV,
        >(RuaNameV { name, case: RuaCase::CamelCase, matches_case: true }),
        spec_is_pascal_case(name) ==> spec_name_from_ident(name, span) == Ok::<
            RuaNameV,
            ConversionErrorV,
        >(RuaNameV { name, case: RuaCase::PascalCase, matches_case: true }),
        !spec_is_snake_case(name) && !spec_is_camel_case(name) && !spec_is_pascal_case(name)
            ==> spec_name_from_ident(name, span) is Err,
{
    lemma_casings_disjoint(name);
}

/// Conversion is a function of the node alone: two conversions of
/// the same type expression yield equal model values, so converting
/// twice yields structurally equal results.
pub proof fn lemma_conversion_deterministic(
    n: TypeNodeV,
    r1: Result<RuaTypeV, ConversionErrorV>,
    r2: Result<RuaTypeV, ConversionErrorV>,
)
    requires
        r1 == spec_type_from_node(n),
        r2 == spec_type_from_node(n),
    ensures
        r1 == r2,
{
}

/// The unsupported syntactic type categories always fail, and the
/// error's message names the specific unsupported category.
pub proof fn lemma_unsupported_categories_fail(n: TypeNodeV)
    ensures
        n matches TypeNodeV::Group { .. } ==> spec_type_from_node(n) matches Err(e)
            && e.message == Some("unsupported type Group"@),
        n matches TypeNodeV::ImplTrait { .. } ==> spec_type_from_node(n) matches Err(e)
            && e.message == Some("unsupported type ImplTrait"@),
        n matches TypeNodeV::Infer { .. } ==> spec_type_from_node(n) matches Err(e)
            && e.message == Some(
            "unsupported type Infer, please specify the type explicitly"@,
        ),
        n matches TypeNodeV::Macro { .. } ==> spec_type_from_node(n) matches Err(e)
            && e.message == Some("unsupported type Macro"@),
        n matches TypeNodeV::Never { .. } ==> spec_type_from_node(n) matches Err(e)
            && e.message == Some("unsupported type Never"@),
        n matches TypeNodeV::Paren { .. } ==> spec_type_from_node(n) matches Err(e)
            && e.message == Some("unsupported type Paren"@),
        n matches TypeNodeV::TraitObject { .. } ==> spec_type_from_node(n) matches Err(e)
            && e.message == Some("unsupported type TraitObject"@),
        n matches TypeNodeV::Verbatim { text, .. } ==> spec_type_from_node(n) matches Err(e)
            && e.message == Some("unsupported type Verbatim: "@ + text),
        n matches TypeNodeV::Other { .. } ==> spec_type_from_node(n) matches Err(e)
            && e.message == Some("unsupported type"@),
{
}

/// A failure converting a named field's contents surfaces as the
/// struct's conversion error: the outermost tags name the struct
/// conversion, its span is the struct's, and the failing field's
/// error is the direct cause.
pub proof fn lemma_error_chain_struct_field(s: StructNodeV, e0: ConversionErrorV)
    requires
        s.fields matches FieldsNodeV::Named { fields: fs } && fs.len() > 0
            && spec_var_from_field(fs[0]) == Err::<RuaVarV, ConversionErrorV>(e0),
    ensures
        spec_struct_from_node(s) matches Err(e) && e.source_type == Some("ItemStruct"@)
            && e.target_type == Some("RuaStruct"@) && e.start == Some(
            (s.span.start_line, s.span.start_col),
        ) && e.err_source == Some(Box::new(e0)),
{
}

/// A named field whose declared type fails to convert produces a
/// field-level error whose span is the field's and whose direct
/// cause is the type conversion's own error.
pub proof fn lemma_error_chain_field_type(f: FieldNodeV, et: ConversionErrorV)
    requires
        f.name matches Some(nm) && spec_name_from_ident(nm, f.span) is Ok,
        spec_type_from_node(f.ty) == Err::<RuaTypeV, ConversionErrorV>(et),
    ensures
        spec_var_from_field(f) matches Err(e) && e.source_type == Some("Field"@)
            && e.target_type == Some("RuaVar"@) && e.start == Some(
            (f.span.start_line, f.span.start_col),
        ) && e.err_source == Some(Box::new(et)),
{
}

} // verus!
