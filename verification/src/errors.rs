//! Error types: filesystem failures, parse failures, and chained,
//! span-located conversion failures.

use vstd::prelude::*;

use crate::utils::{push_char, spec_decimal, usize_to_string};

verus! {

/// The mathematical view of a [`ConversionError`] and of a
/// [`ConversionErrorBuilder`]: both carry the same fields.
pub struct ConversionErrorV {
    pub path: Option<Seq<char>>,
    pub start: Option<(usize, usize)>,
    pub end: Option<(usize, usize)>,
    pub source_type: Option<Seq<char>>,
    pub target_type: Option<Seq<char>>,
    pub message: Option<Seq<char>>,
    pub err_source: Option<Box<ConversionErrorV>>,
}

/// An error that occurs during a conversion: an optional file path,
/// optional source span, optional source and target type tags, an
/// optional message, and an optional predecessor error, forming a
/// cause chain from the innermost fault outward.
#[derive(Debug, PartialEq, Hash)]
pub struct ConversionError {
    path: Option<String>,
    start: Option<(usize, usize)>,
    end: Option<(usize, usize)>,
    source_type: Option<String>,
    target_type: Option<String>,
    message: Option<String>,
    err_source: Option<Box<ConversionError>>,
}

impl View for ConversionError {
    type V = ConversionErrorV;

    closed spec fn view(&self) -> ConversionErrorV
        decreases self,
    {
        ConversionErrorV {
            path: self.path.deep_view(),
            start: self.start,
            end: self.end,
            source_type: self.source_type.deep_view(),
            target_type: self.target_type.deep_view(),
            message: self.message.deep_view(),
            err_source: match &self.err_source {
                Some(b) => Some(Box::new((**b).view())),
                None => None,
            },
        }
    }
}

/// Clones an optional string, preserving its contents.
fn clone_opt_string(o: &Option<String>) -> (r: Option<String>)
    ensures
        r.deep_view() == o.deep_view(),
{
    match o {
        Some(s) => Some(s.clone()),
        None => None,
    }
}

impl Clone for ConversionError {
    fn clone(&self) -> (r: Self)
        ensures
            r@ == self@,
        decreases self,
    {
        ConversionError {
            path: clone_opt_string(&self.path),
            start: self.start,
            end: self.end,
            source_type: clone_opt_string(&self.source_type),
            target_type: clone_opt_string(&self.target_type),
            message: clone_opt_string(&self.message),
            err_source: match &self.err_source {
                Some(b) => Some(Box::new((**b).clone())),
                None => None,
            },
        }
    }
}

/// The path part of a rendered error: the path itself, or nothing.
pub open spec fn spec_path_part(o: Option<Seq<char>>) -> Seq<char> {
    match o {
        Some(p) => p,
        None => Seq::empty(),
    }
}

/// An optional tagged part of a rendered error: the prefix and the
/// text, or nothing.
pub open spec fn spec_opt_text(o: Option<Seq<char>>, prefix: Seq<char>) -> Seq<char> {
    match o {
        Some(t) => prefix + t,
        None => Seq::empty(),
    }
}

/// The span-start part of a rendered error.
pub open spec fn spec_start_part(o: Option<(usize, usize)>) -> Seq<char> {
    match o {
        Some(sc) => "(from "@ + spec_decimal(sc.0 as nat) + ":"@ + spec_decimal(sc.1 as nat),
        None => "("@,
    }
}

/// The span-end part of a rendered error.
pub open spec fn spec_end_part(o: Option<(usize, usize)>) -> Seq<char> {
    match o {
        Some(ec) => "to "@ + spec_decimal(ec.0 as nat) + ":"@ + spec_decimal(ec.1 as nat) + ")"@,
        None => ")"@,
    }
}

/// The text that [`ConversionError::render`] produces for an error:
/// the path, the span, the type tags and the message where present,
/// followed by the rendering of each cause in the chain.
pub open spec fn spec_render_error(e: ConversionErrorV) -> Seq<char>
    decreases e,
{
    spec_path_part(e.path) + spec_start_part(e.start) + spec_end_part(e.end) + spec_opt_text(
        e.source_type,
        " from "@,
    ) + spec_opt_text(e.target_type, " to "@) + spec_opt_text(e.message, ": "@) + (match e
        .err_source {
        Some(b) => "\n- Caused by: "@ + spec_render_error(*b),
        None => Seq::empty(),
    })
}

/// Appends an optional tagged part to the rendering.
fn append_opt_text(r: &mut String, o: &Option<String>, prefix: &str)
    ensures
        final(r)@ == old(r)@ + spec_opt_text(o.deep_view(), prefix@),
{
    match o {
        Some(t) => {
            r.append(prefix);
            r.append(t.as_str());
            proof {
                assert(r@ =~= old(r)@ + spec_opt_text(o.deep_view(), prefix@));
            }
        },
        None => {
            proof {
                assert(r@ =~= old(r)@ + spec_opt_text(o.deep_view(), prefix@));
            }
        },
    }
}

/// Appends the span-start part to the rendering.
fn append_start_part(r: &mut String, o: &Option<(usize, usize)>)
    ensures
        final(r)@ == old(r)@ + spec_start_part(*o),
{
    match o {
        Some(sc) => {
            r.append("(from ");
            let l = usize_to_string(sc.0);
            r.append(l.as_str());
            r.append(":");
            let c = usize_to_string(sc.1);
            r.append(c.as_str());
            proof {
                assert(r@ =~= old(r)@ + spec_start_part(*o));
            }
        },
        None => {
            r.append("(");
        },
    }
}

/// Appends the span-end part to the rendering.
fn append_end_part(r: &mut String, o: &Option<(usize, usize)>)
    ensures
        final(r)@ == old(r)@ + spec_end_part(*o),
{
    match o {
        Some(ec) => {
            r.append("to ");
            let l = usize_to_string(ec.0);
            r.append(l.as_str());
            r.append(":");
            let c = usize_to_string(ec.1);
            r.append(c.as_str());
            r.append(")");
            proof {
                assert(r@ =~= old(r)@ + spec_end_part(*o));
            }
        },
        None => {
            r.append(")");
        },
    }
}

impl ConversionError {
    /// The file that caused the error, if one was recorded.
    pub fn path(&self) -> (r: &Option<String>)
        ensures
            r.deep_view() == self@.path,
    {
        &self.path
    }

    /// The line and column where the error starts, if recorded.
    pub fn start(&self) -> (r: &Option<(usize, usize)>)
        ensures
            *r == self@.start,
    {
        &self.start
    }

    /// The line and column where the error ends, if recorded.
    pub fn end(&self) -> (r: &Option<(usize, usize)>)
        ensures
            *r == self@.end,
    {
        &self.end
    }

    /// The tag naming what kind of node failed to convert.
    pub fn source_type(&self) -> (r: &Option<String>)
        ensures
            r.deep_view() == self@.source_type,
    {
        &self.source_type
    }

    /// The tag naming what kind of model value was being built.
    pub fn target_type(&self) -> (r: &Option<String>)
        ensures
            r.deep_view() == self@.target_type,
    {
        &self.target_type
    }

    /// The free-text message, if one was recorded.
    pub fn message(&self) -> (r: &Option<String>)
        ensures
            r.deep_view() == self@.message,
    {
        &self.message
    }

    /// The predecessor error this one wraps, if any.
    pub fn cause(&self) -> (r: &Option<Box<ConversionError>>)
        ensures
            match r {
                Some(b) => self@.err_source matches Some(bv) && b@ == *bv,
                None => self@.err_source is None,
            },
    {
        &self.err_source
    }

    /// Renders the error and its whole cause chain as text.
    #[verifier::rlimit(50)]
    #[verifier::spinoff_prover]
    pub fn render(&self) -> (r: String)
        ensures
            r@ == spec_render_error(self@),
        decreases self,
    {
        let mut r = String::new();
        if let Some(p) = &self.path {
            r.append(p.as_str());
        }
        proof {
            assert(r@ =~= spec_path_part(self@.path));
        }
        append_start_part(&mut r, &self.start);
        append_end_part(&mut r, &self.end);
        append_opt_text(&mut r, &self.source_type, " from ");
        append_opt_text(&mut r, &self.target_type, " to ");
        append_opt_text(&mut r, &self.message, ": ");
        if let Some(b) = &self.err_source {
            r.append("\n- Caused by: ");
            let inner = (**b).render();
            r.append(inner.as_str());
        }
        proof {
            assert(r@ =~= spec_render_error(self@));
        }
        r
    }

    /// Creates a builder with every field unset.
    pub fn builder() -> (r: ConversionErrorBuilder)
        ensures
            r@ == (ConversionErrorV {
                path: None,
                start: None,
                end: None,
                source_type: None,
                target_type: None,
                message: None,
                err_source: None,
            }),
    {
        ConversionErrorBuilder {
            path: None,
            start: None,
            end: None,
            source_type: None,
            target_type: None,
            err_source: None,
            message: None,
        }
    }

    /// Creates a builder for the error that will wrap this one as its
    /// cause.
    pub fn builder_for_next(&self) -> (r: ConversionErrorBuilder)
        ensures
            r@ == (ConversionErrorV {
                path: None,
                start: None,
                end: None,
                source_type: None,
                target_type: None,
                message: None,
                err_source: Some(Box::new(self@)),
            }),
    {
        ConversionErrorBuilder {
            path: None,
            start: None,
            end: None,
            source_type: None,
            target_type: None,
            message: None,
            err_source: Some(Box::new(self.clone())),
        }
    }
}

/// An incremental builder for a [`ConversionError`]; the built error
/// snapshots exactly the fields set on the builder.
#[derive(Debug, PartialEq, Hash)]
pub struct ConversionErrorBuilder {
    path: Option<String>,
    start: Option<(usize, usize)>,
    end: Option<(usize, usize)>,
    source_type: Option<String>,
    target_type: Option<String>,
    message: Option<String>,
    err_source: Option<Box<ConversionError>>,
}

impl View for ConversionErrorBuilder {
    type V = ConversionErrorV;

    closed spec fn view(&self) -> ConversionErrorV {
        ConversionErrorV {
            path: self.path.deep_view(),
            start: self.start,
            end: self.end,
            source_type: self.source_type.deep_view(),
            target_type: self.target_type.deep_view(),
            message: self.message.deep_view(),
            err_source: match &self.err_source {
                Some(b) => Some(Box::new((**b)@)),
                None => None,
            },
        }
    }
}

impl ConversionErrorBuilder {
    /// Sets the path to the file that caused the error.
    pub fn path(self, path: String) -> (r: Self)
        ensures
            r@ == (ConversionErrorV { path: Some(path@), ..self@ }),
    {
        Self { path: Some(path), ..self }
    }

    /// Sets where the error starts.
    pub fn start(self, location: (usize, usize)) -> (r: Self)
        ensures
            r@ == (ConversionErrorV { start: Some(location), ..self@ }),
    {
        Self { start: Some(location), ..self }
    }

    /// Sets where the error ends.
    pub fn end(self, location: (usize, usize)) -> (r: Self)
        ensures
            r@ == (ConversionErrorV { end: Some(location), ..self@ }),
    {
        Self { end: Some(location), ..self }
    }

    /// Sets both ends of the error's span from a node's span.
    pub fn span(self, span: &crate::nodes::Span) -> (r: Self)
        ensures
            r@ == (ConversionErrorV {
                start: Some((span.start_line, span.start_col)),
                end: Some((span.end_line, span.end_col)),
                ..self@
            }),
    {
        Self {
            start: Some((span.start_line, span.start_col)),
            end: Some((span.end_line, span.end_col)),
            ..self
        }
    }

    /// Sets the tag naming what kind of node failed to convert.
    pub fn source_type(self, source_type: &str) -> (r: Self)
        ensures
            r@ == (ConversionErrorV { source_type: Some(source_type@), ..self@ }),
    {
        Self { source_type: Some(source_type.to_owned()), ..self }
    }

    /// Sets the tag naming what kind of model value was being built.
    pub fn target_type(self, target_type: &str) -> (r: Self)
        ensures
            r@ == (ConversionErrorV { target_type: Some(target_type@), ..self@ }),
    {
        Self { target_type: Some(target_type.to_owned()), ..self }
    }

    /// Sets the free-text message of the error.
    pub fn message(self, message: String) -> (r: Self)
        ensures
            r@ == (ConversionErrorV { message: Some(message@), ..self@ }),
    {
        Self { message: Some(message), ..self }
    }

    /// Builds the conversion error from the fields set so far.
    pub fn build(self) -> (r: ConversionError)
        ensures
            r@ == self@,
    {
        ConversionError {
            path: self.path,
            start: self.start,
            end: self.end,
            source_type: self.source_type,
            target_type: self.target_type,
            err_source: self.err_source,
            message: self.message,
        }
    }
}

/// The mathematical view of a [`RuaFsError`].
pub enum RuaFsErrorV {
    ReadFileErr { path: Seq<char>, err: Seq<char> },
    FileNotFoundErr { path: Seq<char> },
}

/// An error that occurs when locating or reading a file.
#[derive(Debug, Clone, PartialEq, Eq)]
pub enum RuaFsError {
    /// A file could not be read; carries the path and the reader's
    /// own message.
    ReadFileErr {
        /// The path to the file that caused the error.
        path: String,
        /// The reader's description of the failure.
        err: String,
    },
    /// A file could not be found by any of the module conventions.
    FileNotFoundErr(String),
}

impl View for RuaFsError {
    type V = RuaFsErrorV;

    open spec fn view(&self) -> RuaFsErrorV {
        match self {
            RuaFsError::ReadFileErr { path, err } => RuaFsErrorV::ReadFileErr {
                path: path@,
                err: err@,
            },
            RuaFsError::FileNotFoundErr(path) => RuaFsErrorV::FileNotFoundErr { path: path@ },
        }
    }
}

/// The text that [`RuaFsError::render`] produces.
pub open spec fn spec_render_fs_error(e: RuaFsErrorV) -> Seq<char> {
    match e {
        RuaFsErrorV::ReadFileErr { path, err } => "failed to read "@ + path + ": "@ + err,
        RuaFsErrorV::FileNotFoundErr { path } => "file not found: "@ + path,
    }
}

impl RuaFsError {
    /// Renders the error as text.
    pub fn render(&self) -> (r: String)
        ensures
            r@ == spec_render_fs_error(self@),
    {
        let mut r = String::new();
        match self {
            RuaFsError::ReadFileErr { path, err } => {
                r.append("failed to read ");
                r.append(path.as_str());
                r.append(": ");
                r.append(err.as_str());
            },
            RuaFsError::FileNotFoundErr(path) => {
                r.append("file not found: ");
                r.append(path.as_str());
            },
        }
        proof {
            assert(r@ =~= spec_render_fs_error(self@));
        }
        r
    }
}

/// The mathematical view of a [`ParseError`].
pub struct ParseErrorV {
    pub path: Seq<char>,
    pub err: Seq<char>,
}

/// An error that occurs when a file's content fails front-end parsing.
#[derive(Debug, Clone, PartialEq, Eq)]
pub struct ParseError {
    /// The path to the file that caused the error.
    pub path: String,
    /// The front end's own description of the failure.
    pub err: String,
}

impl View for ParseError {
    type V = ParseErrorV;

    open spec fn view(&self) -> ParseErrorV {
        ParseErrorV { path: self.path@, err: self.err@ }
    }
}

/// The text that [`ParseError::render`] produces.
pub open spec fn spec_render_parse_error(e: ParseErrorV) -> Seq<char> {
    e.path + ": "@ + e.err
}

impl ParseError {
    /// Renders the error as text.
    pub fn render(&self) -> (r: String)
        ensures
            r@ == spec_render_parse_error(self@),
    {
        let mut r = String::new();
        r.append(self.path.as_str());
        r.append(": ");
        r.append(self.err.as_str());
        proof {
            assert(r@ =~= spec_render_parse_error(self@));
        }
        r
    }
}

/// The mathematical view of a [`RuaError`].
pub enum RuaErrorV {
    FsError(RuaFsErrorV),
    ParseError(ParseErrorV),
    ConversionError(ConversionErrorV),
}

/// Any error that aborts a run: a filesystem failure, a parse
/// failure, or a conversion failure.
#[derive(Debug)]
pub enum RuaError {
    /// An error locating or reading a file.
    FsError(RuaFsError),
    /// An error parsing a file.
    ParseError(ParseError),
    /// An error converting a node into a model value.
    ConversionError(ConversionError),
}

impl View for RuaError {
    type V = RuaErrorV;

    open spec fn view(&self) -> RuaErrorV {
        match self {
            RuaError::FsError(e) => RuaErrorV::FsError(e@),
            RuaError::ParseError(e) => RuaErrorV::ParseError(e@),
            RuaError::ConversionError(e) => RuaErrorV::ConversionError(e@),
        }
    }
}

/// The text that [`RuaError::render`] produces: the rendering of
/// whichever error the run failed with.
pub open spec fn spec_render_rua_error(e: RuaErrorV) -> Seq<char> {
    match e {
        RuaErrorV::FsError(fe) => spec_render_fs_error(fe),
        RuaErrorV::ParseError(pe) => spec_render_parse_error(pe),
        RuaErrorV::ConversionError(ce) => spec_render_error(ce),
    }
}

impl RuaError {
    /// Renders the error as text.
    pub fn render(&self) -> (r: String)
        ensures
            r@ == spec_render_rua_error(self@),
    {
        match self {
            RuaError::FsError(e) => e.render(),
            RuaError::ParseError(e) => e.render(),
            RuaError::ConversionError(e) => e.render(),
        }
    }
}

} // verus!
