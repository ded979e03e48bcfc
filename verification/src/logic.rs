//! The module resolver: discovers the build units a manifest
//! declares, resolves each pending module to a source file, drives
//! the front end over it, and routes the declarations it finds.
//!
//! The resolver keeps a last-in-first-out work stack of pending
//! modules, so the processing order across sibling modules is a
//! deliberate design property that callers must not rely on.

use vstd::prelude::*;

use crate::errors::{ParseError, RuaError, RuaErrorV, RuaFsError, RuaFsErrorV};
use crate::nodes::{EnumNode, FileNode, FnNode, ItemNode, ItemNodeV, ModNode, StructNode};

verus! {

/// What the build-unit manifest declares, as far as module resolution
/// cares: a package name for single-unit mode, and a workspace member
/// list for multi-unit mode. Absence of both is not an error; it
/// yields an empty module set.
#[derive(Debug, Clone, PartialEq, Eq)]
pub struct ManifestInfo {
    /// The declared package name, if any.
    pub package_name: Option<String>,
    /// The declared workspace member paths, if any.
    pub workspace_members: Option<Vec<String>>,
}

/// The mathematical view of a [`ManifestInfo`].
pub struct ManifestInfoV {
    pub package_name: Option<Seq<char>>,
    pub workspace_members: Option<Seq<Seq<char>>>,
}

impl View for ManifestInfo {
    type V = ManifestInfoV;

    open spec fn view(&self) -> ManifestInfoV {
        ManifestInfoV {
            package_name: self.package_name.deep_view(),
            workspace_members: self.workspace_members.deep_view(),
        }
    }
}

// The meaning the manifest reader gives to manifest text: the
// package name and the workspace member list the text declares, or
// the reader's failure message. TOML parsing depends on the text
// alone, so the result is a function of it.
pub uninterp spec fn manifest_of(text: Seq<char>) -> Result<ManifestInfoV, Seq<char>>;

/// Relies on `toml::from_str::<toml::Table>` and `toml::Value`'s
/// `get`, `as_str` and `as_array` accessors: parses manifest text and
/// reads out `package.name` and `workspace.members`, exactly the two
/// fields module resolution recognizes. A missing or non-list
/// `workspace.members` yields no members; a member that is not a
/// string is a parse failure.
#[verifier::external_body]
fn parse_manifest_text(text: &str) -> (r: Result<ManifestInfo, String>)
    ensures
        match r {
            Ok(m) => manifest_of(text@) == Ok::<ManifestInfoV, Seq<char>>(m@),
            Err(e) => manifest_of(text@) == Err::<ManifestInfoV, Seq<char>>(e@),
        },
{
    let t: toml::Table = toml::from_str(text).map_err(|e| e.to_string())?;
    let package_name = t.get("package").and_then(|p| p.get("name")).and_then(|n| n.as_str()).map(|s| s.to_string());
    let workspace_members = match t.get("workspace").and_then(|w| w.get("members")).and_then(|m| m.as_array()) {
        None => None,
        Some(a) => Some(a.iter().map(|v| v.as_str().map(|s| s.to_string()).ok_or("workspace member is not a string".to_string())).collect::<Result<Vec<String>, String>>()?),
    };
    Ok(ManifestInfo { package_name, workspace_members })
}

/// The kind of a pending module.
#[derive(Debug, Clone, Copy, PartialEq, Eq, Structural)]
pub enum RuaModuleType {
    /// The root module of a build unit.
    CrateModule,
    /// A nested module to be resolved to its own file.
    FileModule,
}

/// The mathematical view of a [`Module`].
pub struct ModuleV {
    pub name: Seq<char>,
    pub ty: RuaModuleType,
    pub root_path: Seq<char>,
}

/// A pending module on the resolver's work stack.
#[derive(Debug, Clone, PartialEq, Eq)]
pub struct Module {
    /// The name of the module.
    pub name: String,
    /// The kind of the module.
    pub ty: RuaModuleType,
    /// The filesystem root under which the module's file is sought.
    pub root_path: String,
}

impl View for Module {
    type V = ModuleV;

    open spec fn view(&self) -> ModuleV {
        ModuleV { name: self.name@, ty: self.ty, root_path: self.root_path@ }
    }
}

impl DeepView for Module {
    type V = ModuleV;

    open spec fn deep_view(&self) -> ModuleV {
        self.view()
    }
}

impl Module {
    /// Creates a pending module.
    fn new(name: String, ty: RuaModuleType, root_path: String) -> (r: Self)
        ensures
            r@ == (ModuleV { name: name@, ty, root_path: root_path@ }),
    {
        Self { name, ty, root_path }
    }

    /// The filesystem root under which the module's file is sought.
    pub fn root_path(&self) -> (r: &String)
        ensures
            r@ == self@.root_path,
    {
        &self.root_path
    }
}

/// Why a declaration or module was noted rather than emitted.
#[derive(Debug, Clone, Copy, PartialEq, Eq, Structural)]
pub enum SkipReason {
    /// A leaf declaration was dropped because it is not public.
    NotPublic,
    /// A leaf declaration was dropped by the backend's predicate.
    ExcludedByPredicate,
    /// A non-public nested module was still queued for traversal;
    /// visibility filtering applies to leaf declarations only, and
    /// this note records the asymmetry.
    PrivateModuleQueued,
}

/// The mathematical view of a [`SkipNote`].
pub struct SkipNoteV {
    pub name: Seq<char>,
    pub reason: SkipReason,
}

/// One structured observation of a skip decision, inspectable by
/// callers instead of a log line.
#[derive(Debug, Clone, PartialEq, Eq)]
pub struct SkipNote {
    /// The name of the declaration or module the note is about.
    pub name: String,
    /// Why the note was recorded.
    pub reason: SkipReason,
}

impl View for SkipNote {
    type V = SkipNoteV;

    open spec fn view(&self) -> SkipNoteV {
        SkipNoteV { name: self.name@, reason: self.reason }
    }
}

impl DeepView for SkipNote {
    type V = SkipNoteV;

    open spec fn deep_view(&self) -> SkipNoteV {
        self.view()
    }
}

/// A leaf declaration on its way to the inclusion filter.
#[derive(Clone, Copy)]
pub enum DeclRef<'a> {
    /// A struct declaration.
    Struct(&'a StructNode),
    /// An enum declaration.
    Enum(&'a EnumNode),
    /// A function declaration.
    Fn(&'a FnNode),
}

/// The display name of a filtered declaration.
pub open spec fn spec_decl_name(d: DeclRef) -> Seq<char> {
    match d {
        DeclRef::Struct(s) => s.name@,
        DeclRef::Enum(e) => e.name@,
        DeclRef::Fn(f) => f.name@,
    }
}

/// Whether a filtered declaration is declared public.
pub open spec fn spec_decl_is_pub(d: DeclRef) -> bool {
    match d {
        DeclRef::Struct(s) => s.is_pub,
        DeclRef::Enum(e) => e.is_pub,
        DeclRef::Fn(f) => f.is_pub,
    }
}

/// The attribute names on a filtered declaration.
pub open spec fn spec_decl_attrs(d: DeclRef) -> Seq<Seq<char>> {
    match d {
        DeclRef::Struct(s) => s.attrs.deep_view(),
        DeclRef::Enum(e) => e.attrs.deep_view(),
        DeclRef::Fn(f) => f.attrs.deep_view(),
    }
}

impl<'a> DeclRef<'a> {
    /// The declaration's identifier.
    pub fn decl_name(&self) -> (r: &'a String)
        ensures
            r@ == spec_decl_name(*self),
    {
        match self {
            DeclRef::Struct(s) => &s.name,
            DeclRef::Enum(e) => &e.name,
            DeclRef::Fn(f) => &f.name,
        }
    }

    /// Whether the declaration is declared public.
    pub fn is_pub(&self) -> (r: bool)
        ensures
            r == spec_decl_is_pub(*self),
    {
        match self {
            DeclRef::Struct(s) => s.is_pub,
            DeclRef::Enum(e) => e.is_pub,
            DeclRef::Fn(f) => f.is_pub,
        }
    }

    /// The attribute names on the declaration.
    pub fn attr_names(&self) -> (r: &'a Vec<String>)
        ensures
            r.deep_view() == spec_decl_attrs(*self),
    {
        match self {
            DeclRef::Struct(s) => &s.attrs,
            DeclRef::Enum(e) => &e.attrs,
            DeclRef::Fn(f) => &f.attrs,
        }
    }

    /// Whether the declaration carries an attribute with the given
    /// name; the canonical marker-attribute predicate for backends.
    pub fn has_attr(&self, name: &str) -> (r: bool)
        ensures
            r == spec_decl_attrs(*self).contains(name@),
    {
        let attrs = self.attr_names();
        let n = attrs.len();
        let mut i: usize = 0;
        while i < n
            invariant
                0 <= i <= n,
                n == attrs@.len(),
                attrs.deep_view() == spec_decl_attrs(*self),
                forall|j: int| 0 <= j < i ==> spec_decl_attrs(*self)[j] != name@,
            decreases n - i,
        {
            proof {
                assert(attrs.deep_view()[i as int] == attrs@[i as int]@);
            }
            if crate::convert::str_eq(attrs[i].as_str(), name) {
                proof {
                    assert(spec_decl_attrs(*self)[i as int] == name@);
                }
                return true;
            }
            i = i + 1;
        }
        proof {
            assert(forall|j: int| 0 <= j < spec_decl_attrs(*self).len()
                ==> spec_decl_attrs(*self)[j] != name@);
        }
        false
    }
}

/// The front end: parses raw source text into the node tree the
/// resolver walks. The concrete parser behind it is opaque to the
/// library.
pub trait RuaFrontEnd {
    /// Parses source text; a failure carries the parser's own
    /// description.
    fn parse(&self, text: &str) -> Result<FileNode, String>;
}

/// The backend a run drives: it names the entry root, reads files
/// (so a caller may substitute a virtual filesystem), decides which
/// public declarations to keep, and receives each accepted
/// declaration together with its owning module.
pub trait Rua {
    /// The root filesystem location at which resolution begins.
    fn entry_path(&self) -> String;

    /// Reads a file fully to text; a failure carries the reader's
    /// own description of what went wrong.
    fn read_file(&self, path: &str) -> Result<String, String>;

    /// Whether a file exists at the given path.
    fn file_exists(&self, path: &str) -> bool;

    /// Whether an already-public declaration should reach the
    /// emission operations.
    fn should_include(&self, item: DeclRef<'_>) -> bool;

    /// Emits a function declaration.
    fn write_fn(&mut self, m: &Module, f: &FnNode);

    /// Emits a struct declaration.
    fn write_struct(&mut self, m: &Module, s: &StructNode);

    /// Emits an enum declaration.
    fn write_enum(&mut self, m: &Module, e: &EnumNode);
}

/// A path joined by the filesystem separator.
pub open spec fn spec_join_path(a: Seq<char>, b: Seq<char>) -> Seq<char> {
    a + "/"@ + b
}

/// Joins two path fragments with the filesystem separator.
pub fn join_path(a: &str, b: &str) -> (r: String)
    ensures
        r@ == spec_join_path(a@, b@),
{
    let mut r = String::new();
    r.append(a);
    r.append("/");
    r.append(b);
    proof {
        assert(r@ =~= spec_join_path(a@, b@));
    }
    r
}

/// Concatenates two strings.
pub fn str_concat(a: &str, b: &str) -> (r: String)
    ensures
        r@ == a@ + b@,
{
    let mut r = String::new();
    r.append(a);
    r.append(b);
    r
}

/// Whether `new_s` extends `old_s`: it keeps `old_s` as a prefix and
/// only appends after it.
pub open spec fn seq_extends<A>(old_s: Seq<A>, new_s: Seq<A>) -> bool {
    new_s.len() >= old_s.len() && new_s.take(old_s.len() as int) == old_s
}

/// Extension of sequences is transitive.
pub proof fn lemma_seq_extends_trans<A>(a: Seq<A>, b: Seq<A>, c: Seq<A>)
    requires
        seq_extends(a, b),
        seq_extends(b, c),
    ensures
        seq_extends(a, c),
{
    assert(c.take(a.len() as int) =~= a) by {
        assert(forall|i: int|
            0 <= i < a.len() ==> c.take(b.len() as int)[i] == #[trigger] c[i]);
        assert(forall|i: int|
            0 <= i < a.len() ==> b.take(a.len() as int)[i] == #[trigger] b[i]);
    }
}

/// The crate-root modules a workspace member list produces: one per
/// member, in order, each rooted at the entry root joined with the
/// member path.
pub open spec fn spec_workspace_modules(entry: Seq<char>, members: Seq<Seq<char>>) -> Seq<
    ModuleV,
> {
    Seq::new(
        members.len(),
        |i: int|
            ModuleV {
                name: members[i],
                ty: RuaModuleType::CrateModule,
                root_path: spec_join_path(entry, members[i]),
            },
    )
}

/// A workspace member list produces exactly one crate-root module per
/// member, rooted at the entry root joined with that member's path,
/// in member order.
pub proof fn lemma_workspace_modules(entry: Seq<char>, members: Seq<Seq<char>>)
    ensures
        spec_workspace_modules(entry, members).len() == members.len(),
        forall|i: int|
            0 <= i < members.len() ==> #[trigger] spec_workspace_modules(entry, members)[i]
                == (ModuleV {
                name: members[i],
                ty: RuaModuleType::CrateModule,
                root_path: spec_join_path(entry, members[i]),
            }),
{
}

/// The crate-root modules a whole manifest produces: the package's
/// module rooted at the entry root, if a package is declared, then
/// one module per workspace member.
pub open spec fn spec_manifest_modules(m: ManifestInfoV, entry: Seq<char>) -> Seq<ModuleV> {
    (match m.package_name {
        Some(name) => seq![
            ModuleV { name, ty: RuaModuleType::CrateModule, root_path: entry },
        ],
        None => Seq::empty(),
    }) + (match m.workspace_members {
        Some(ms) => spec_workspace_modules(entry, ms),
        None => Seq::empty(),
    })
}

/// The file modules a parsed file's declaration walk queues: one per
/// nested module declaration, in declaration order, each rooted at
/// the current search directory.
pub open spec fn spec_file_modules(items: Seq<ItemNodeV>, entry_path: Seq<char>) -> Seq<
    ModuleV,
>
    decreases items,
{
    if items.len() == 0 {
        Seq::empty()
    } else {
        let rest = spec_file_modules(items.drop_first(), entry_path);
        match items[0] {
            ItemNodeV::Mod { m } => seq![
                ModuleV { name: m.name, ty: RuaModuleType::FileModule, root_path: entry_path },
            ] + rest,
            _ => rest,
        }
    }
}

/// The private-module notes a parsed file's declaration walk leaves:
/// one per non-public nested module declaration, in declaration
/// order.
pub open spec fn spec_private_module_notes(items: Seq<ItemNodeV>) -> Seq<SkipNoteV>
    decreases items,
{
    if items.len() == 0 {
        Seq::empty()
    } else {
        let rest = spec_private_module_notes(items.drop_first());
        match items[0] {
            ItemNodeV::Mod { m } => if !m.is_pub {
                seq![
                    SkipNoteV { name: m.name, reason: SkipReason::PrivateModuleQueued },
                ] + rest
            } else {
                rest
            },
            _ => rest,
        }
    }
}

/// The subsequence of skip notes that record a queued private
/// module, in order.
pub open spec fn spec_private_notes(s: Seq<SkipNoteV>) -> Seq<SkipNoteV>
    decreases s,
{
    if s.len() == 0 {
        Seq::empty()
    } else {
        let r = spec_private_notes(s.drop_last());
        if s.last().reason == SkipReason::PrivateModuleQueued {
            r.push(s.last())
        } else {
            r
        }
    }
}

/// The mathematical view of a [`RuaRunner`]: its pending modules and
/// its skip notes.
pub struct RuaRunnerV {
    pub modules: Seq<ModuleV>,
    pub skipped: Seq<SkipNoteV>,
}

/// The resolver: owns the backend, the front end, the work stack of
/// pending modules, and the structured skip notes of the run.
pub struct RuaRunner<T, F> {
    rua: T,
    front_end: F,
    modules: Vec<Module>,
    skipped: Vec<SkipNote>,
}

impl<T, F> View for RuaRunner<T, F> {
    type V = RuaRunnerV;

    closed spec fn view(&self) -> RuaRunnerV {
        RuaRunnerV { modules: self.modules.deep_view(), skipped: self.skipped.deep_view() }
    }
}

impl<T: Rua, F: RuaFrontEnd> RuaRunner<T, F> {
    /// Creates a runner over a backend and a front end, with an empty
    /// work stack.
    pub fn new(rua: T, front_end: F) -> (r: Self)
        ensures
            r@.modules.len() == 0,
            r@.skipped.len() == 0,
    {
        let r = Self { rua, front_end, modules: Vec::new(), skipped: Vec::new() };
        proof {
            assert(r@.modules =~= Seq::<ModuleV>::empty());
            assert(r@.skipped =~= Seq::<SkipNoteV>::empty());
        }
        r
    }

    /// The backend the runner drives; its accumulated output state
    /// stays inspectable after a run.
    pub fn backend(&self) -> &T {
        &self.rua
    }

    /// The structured skip notes recorded so far, in order.
    pub fn skip_notes(&self) -> (r: &Vec<SkipNote>)
        ensures
            r.deep_view() == self@.skipped,
    {
        &self.skipped
    }

    /// Reads and parses the build-unit manifest at `path`. A read
    /// failure surfaces as the backend's filesystem error; a parse
    /// failure carries this path.
    fn read_and_parse_toml(&self, path: &str) -> (r: Result<ManifestInfo, RuaError>)
        ensures
            match r {
                Ok(m) => exists|text: Seq<char>|
                    (#[trigger] manifest_of(text)) == Ok::<ManifestInfoV, Seq<char>>(m@),
                Err(e) => match e@ {
                    RuaErrorV::FsError(f) => f matches RuaFsErrorV::ReadFileErr {
                        path: p,
                        ..
                    } && p == path@,
                    RuaErrorV::ParseError(pe) => pe.path == path@,
                    RuaErrorV::ConversionError(_) => false,
                },
            },
    {
        let data = match self.rua.read_file(path) {
            Ok(d) => d,
            Err(msg) => {
                let err = RuaFsError::ReadFileErr { path: path.to_owned(), err: msg };
                return Err(RuaError::FsError(err));
            },
        };
        match parse_manifest_text(data.as_str()) {
            Ok(m) => {
                proof {
                    assert(manifest_of(data@) == Ok::<ManifestInfoV, Seq<char>>(m@));
                }
                Ok(m)
            },
            Err(msg) => Err(
                RuaError::ParseError(ParseError { path: path.to_owned(), err: msg }),
            ),
        }
    }

    /// Queues the single crate-root module a package declaration
    /// produces, rooted at the entry root.
    fn handle_cargo_package(&mut self, entry: &str, package: &Option<String>)
        ensures
            final(self)@.skipped == old(self)@.skipped,
            match package {
                Some(name) => final(self)@.modules == old(self)@.modules.push(
                    ModuleV {
                        name: name@,
                        ty: RuaModuleType::CrateModule,
                        root_path: entry@,
                    },
                ),
                None => final(self)@.modules == old(self)@.modules,
            },
    {
        match package {
            Some(name) => {
                let m = Module::new(
                    name.clone(),
                    RuaModuleType::CrateModule,
                    entry.to_owned(),
                );
                let ghost oldm = self.modules.deep_view();
                self.modules.push(m);
                proof {
                    assert(self.modules.deep_view() =~= oldm.push(m@));
                }
            },
            None => {},
        }
    }

    /// Queues one crate-root module per workspace member, rooted at
    /// the entry root joined with the member path, in member order.
    fn handle_cargo_workspace(&mut self, entry: &str, members: &Option<Vec<String>>)
        ensures
            final(self)@.skipped == old(self)@.skipped,
            match members {
                Some(ms) => final(self)@.modules == old(self)@.modules
                    + spec_workspace_modules(entry@, ms.deep_view()),
                None => final(self)@.modules == old(self)@.modules,
            },
    {
        match members {
            Some(ms) => {
                let ghost base = self.modules.deep_view();
                let ghost msv = ms.deep_view();
                let n = ms.len();
                let mut i: usize = 0;
                proof {
                    assert(self.modules.deep_view() =~= base + spec_workspace_modules(
                        entry@,
                        msv,
                    ).take(0));
                }
                while i < n
                    invariant
                        0 <= i <= n,
                        n == ms@.len(),
                        msv == ms.deep_view(),
                        msv.len() == n,
                        self.modules.deep_view() == base + spec_workspace_modules(
                            entry@,
                            msv,
                        ).take(i as int),
                        self.skipped.deep_view() == old(self)@.skipped,
                    decreases n - i,
                {
                    let member = &ms[i];
                    let m = Module::new(
                        member.clone(),
                        RuaModuleType::CrateModule,
                        join_path(entry, member.as_str()),
                    );
                    let ghost before = self.modules.deep_view();
                    self.modules.push(m);
                    proof {
                        assert(msv[i as int] == ms@[i as int]@);
                        assert(m@ == spec_workspace_modules(entry@, msv)[i as int]);
                        assert(self.modules.deep_view() =~= before.push(m@));
                        assert(spec_workspace_modules(entry@, msv).take(i as int + 1)
                            =~= spec_workspace_modules(entry@, msv).take(i as int).push(m@));
                        assert(self.modules.deep_view() =~= base + spec_workspace_modules(
                            entry@,
                            msv,
                        ).take(i as int + 1));
                    }
                    i = i + 1;
                }
                proof {
                    assert(spec_workspace_modules(entry@, msv).take(n as int)
                        =~= spec_workspace_modules(entry@, msv));
                }
            },
            None => {},
        }
    }

    /// Reads the manifest at the entry root and queues the crate-root
    /// modules it declares: the package's, then one per workspace
    /// member. On failure nothing is queued.
    fn read_entry_module(&mut self) -> (r: Result<(), RuaError>)
        ensures
            final(self)@.skipped == old(self)@.skipped,
            r is Err ==> final(self)@.modules == old(self)@.modules,
            r is Ok ==> final(self)@.modules.len() >= old(self)@.modules.len()
                && final(self)@.modules.take(old(self)@.modules.len() as int) == old(
                self,
            )@.modules && forall|i: int|
                old(self)@.modules.len() <= i < final(self)@.modules.len()
                    ==> (#[trigger] final(self)@.modules[i]).ty == RuaModuleType::CrateModule,
            r is Ok ==> exists|mi: ManifestInfoV, entry: Seq<char>|
                (exists|text: Seq<char>|
                    (#[trigger] manifest_of(text)) == Ok::<ManifestInfoV, Seq<char>>(mi))
                    && final(self)@.modules == old(self)@.modules + #[trigger]
                spec_manifest_modules(mi, entry),
    {
        let entry = self.rua.entry_path();
        let manifest_path = join_path(entry.as_str(), "Cargo.toml");
        let manifest = match self.read_and_parse_toml(manifest_path.as_str()) {
            Ok(m) => m,
            Err(e) => {
                proof {
                    assert(final(self)@.modules =~= old(self)@.modules);
                }
                return Err(e);
            },
        };
        self.handle_cargo_package(entry.as_str(), &manifest.package_name);
        let ghost mid = self@.modules;
        self.handle_cargo_workspace(entry.as_str(), &manifest.workspace_members);
        proof {
            let m0 = old(self)@.modules;
            let mi = manifest@;
            let pkg_part = match mi.package_name {
                Some(name) => seq![
                    ModuleV { name, ty: RuaModuleType::CrateModule, root_path: entry@ },
                ],
                None => Seq::<ModuleV>::empty(),
            };
            let ws_part = match mi.workspace_members {
                Some(ms) => spec_workspace_modules(entry@, ms),
                None => Seq::<ModuleV>::empty(),
            };
            match &manifest.package_name {
                Some(name) => {
                    assert(mid =~= m0 + pkg_part);
                },
                None => {
                    assert(mid =~= m0 + pkg_part);
                },
            }
            match &manifest.workspace_members {
                Some(ms) => {
                    assert(self@.modules =~= mid + ws_part);
                },
                None => {
                    assert(self@.modules =~= mid + ws_part);
                },
            }
            assert(self@.modules =~= m0 + (pkg_part + ws_part));
            assert(spec_manifest_modules(mi, entry@) == pkg_part + ws_part);
            assert(self@.modules == m0 + spec_manifest_modules(mi, entry@));
            assert(final(self)@.modules.take(old(self)@.modules.len() as int) =~= old(
                self,
            )@.modules);
        }
        Ok(())
    }

    /// The first existing candidate file for a file module:
    /// `<root>/<name>.rs`, else `<root>/<name>/mod.rs`, else nothing.
    pub fn get_valid_file_path(&self, module: &Module) -> (r: Option<String>)
        ensures
            match r {
                Some(p) => p@ == spec_join_path(module@.root_path, module@.name + ".rs"@)
                    || p@ == spec_join_path(
                    spec_join_path(module@.root_path, module@.name),
                    "mod.rs"@,
                ),
                None => true,
            },
    {
        match self.resolve_file_module(module) {
            Some((path, _dir)) => Some(path),
            None => None,
        }
    }

    /// Resolves a file module to its source file and to the directory
    /// under which its own nested modules are sought.
    fn resolve_file_module(&self, module: &Module) -> (r: Option<(String, String)>)
        ensures
            match r {
                Some(p) => p.0@ == spec_join_path(module@.root_path, module@.name + ".rs"@)
                    && p.1@ == module@.root_path || p.0@ == spec_join_path(
                    spec_join_path(module@.root_path, module@.name),
                    "mod.rs"@,
                ) && p.1@ == spec_join_path(module@.root_path, module@.name),
                None => true,
            },
    {
        let file_name = str_concat(module.name.as_str(), ".rs");
        let cand1 = join_path(self.root_of(module).as_str(), file_name.as_str());
        if self.rua.file_exists(cand1.as_str()) {
            return Some((cand1, self.root_of(module)));
        }
        let dir = join_path(self.root_of(module).as_str(), module.name.as_str());
        let cand2 = join_path(dir.as_str(), "mod.rs");
        if self.rua.file_exists(cand2.as_str()) {
            return Some((cand2, dir));
        }
        None
    }

    /// An owned copy of the module's root path.
    fn root_of(&self, module: &Module) -> (r: String)
        ensures
            r@ == module@.root_path,
    {
        module.root_path().clone()
    }

    /// Resolves and reads a file module; a module whose file neither
    /// convention locates fails with a file-not-found error naming
    /// the module.
    fn read_file_module(&mut self, module: &Module) -> (r: Result<(), RuaError>)
        ensures
            seq_extends(old(self)@.skipped, final(self)@.skipped),
            match r {
                Ok(_) => exists|items: Seq<ItemNodeV>, dir: Seq<char>|
                    (dir == module@.root_path || dir == spec_join_path(
                        module@.root_path,
                        module@.name,
                    )) && final(self)@.modules == old(self)@.modules + #[trigger]
                    spec_file_modules(items, dir) && spec_private_notes(
                        final(self)@.skipped.skip(old(self)@.skipped.len() as int),
                    ) == spec_private_module_notes(items),
                Err(e) => match e@ {
                    RuaErrorV::FsError(f) => match f {
                        RuaFsErrorV::FileNotFoundErr { path } => path == module@.name,
                        RuaFsErrorV::ReadFileErr { path, .. } => path == spec_join_path(
                            module@.root_path,
                            module@.name + ".rs"@,
                        ) || path == spec_join_path(
                            spec_join_path(module@.root_path, module@.name),
                            "mod.rs"@,
                        ),
                    },
                    RuaErrorV::ParseError(pe) => pe.path == spec_join_path(
                        module@.root_path,
                        module@.name + ".rs"@,
                    ) || pe.path == spec_join_path(
                        spec_join_path(module@.root_path, module@.name),
                        "mod.rs"@,
                    ),
                    RuaErrorV::ConversionError(_) => false,
                },
            },
    {
        proof {
            assert(seq_extends(self@.skipped, self@.skipped)) by {
                assert(self@.skipped.take(self@.skipped.len() as int) =~= self@.skipped);
            }
        }
        let resolved = match self.resolve_file_module(module) {
            Some(p) => p,
            None => {
                let err = RuaFsError::FileNotFoundErr(module.name.clone());
                return Err(RuaError::FsError(err));
            },
        };
        let (path, dir) = resolved;
        let parsed = match self.read_and_parse_file(path.as_str()) {
            Ok(f) => f,
            Err(e) => {
                return Err(e);
            },
        };
        self.handle_parsed_file(module, dir.as_str(), &parsed);
        proof {
            assert(final(self)@.modules == old(self)@.modules + spec_file_modules(
                parsed@.items,
                dir@,
            ));
        }
        Ok(())
    }

    /// Queues the module a nested module declaration names, rooted at
    /// the current search directory. Modules are queued regardless of
    /// their own visibility — only leaf declarations are filtered —
    /// and a non-public module leaves a structured note recording the
    /// asymmetry.
    fn handle_item_mod(&mut self, entry_path: &str, m: &ModNode)
        ensures
            final(self)@.modules == old(self)@.modules.push(
                ModuleV {
                    name: m@.name,
                    ty: RuaModuleType::FileModule,
                    root_path: entry_path@,
                },
            ),
            m@.is_pub ==> final(self)@.skipped == old(self)@.skipped,
            !m@.is_pub ==> final(self)@.skipped == old(self)@.skipped.push(
                SkipNoteV { name: m@.name, reason: SkipReason::PrivateModuleQueued },
            ),
    {
        if !m.is_pub {
            let note = SkipNote {
                name: m.name.clone(),
                reason: SkipReason::PrivateModuleQueued,
            };
            let ghost olds = self.skipped.deep_view();
            self.skipped.push(note);
            proof {
                assert(self.skipped.deep_view() =~= olds.push(
                    SkipNoteV { name: m@.name, reason: SkipReason::PrivateModuleQueued },
                ));
            }
        }
        let md = Module::new(m.name.clone(), RuaModuleType::FileModule, entry_path.to_owned());
        let ghost oldm = self.modules.deep_view();
        self.modules.push(md);
        proof {
            assert(self.modules.deep_view() =~= oldm.push(md@));
        }
    }

    /// The inclusion filter: a declaration is accepted when it is
    /// public and the backend's predicate keeps it; a rejection is
    /// recorded as a structured skip note.
    pub fn should_include_item(&mut self, item: DeclRef<'_>) -> (r: bool)
        ensures
            final(self)@.modules == old(self)@.modules,
            !spec_decl_is_pub(item) ==> !r && final(self)@.skipped == old(self)@.skipped.push(
                SkipNoteV { name: spec_decl_name(item), reason: SkipReason::NotPublic },
            ),
            spec_decl_is_pub(item) && r ==> final(self)@.skipped == old(self)@.skipped,
            spec_decl_is_pub(item) && !r ==> final(self)@.skipped == old(self)@.skipped.push(
                SkipNoteV {
                    name: spec_decl_name(item),
                    reason: SkipReason::ExcludedByPredicate,
                },
            ),
    {
        if !item.is_pub() {
            let note = SkipNote { name: item.decl_name().clone(), reason: SkipReason::NotPublic };
            let ghost olds = self.skipped.deep_view();
            self.skipped.push(note);
            proof {
                assert(self.skipped.deep_view() =~= olds.push(
                    SkipNoteV { name: spec_decl_name(item), reason: SkipReason::NotPublic },
                ));
            }
            return false;
        }
        if !self.rua.should_include(item) {
            let note = SkipNote {
                name: item.decl_name().clone(),
                reason: SkipReason::ExcludedByPredicate,
            };
            let ghost olds = self.skipped.deep_view();
            self.skipped.push(note);
            proof {
                assert(self.skipped.deep_view() =~= olds.push(
                    SkipNoteV {
                        name: spec_decl_name(item),
                        reason: SkipReason::ExcludedByPredicate,
                    },
                ));
            }
            return false;
        }
        true
    }

    /// Routes a struct declaration through the filter to the backend.
    fn handle_item_struct(&mut self, m: &Module, s: &StructNode)
        ensures
            final(self)@.modules == old(self)@.modules,
            seq_extends(old(self)@.skipped, final(self)@.skipped),
            !s@.is_pub ==> final(self)@.skipped == old(self)@.skipped.push(
                SkipNoteV { name: s@.name, reason: SkipReason::NotPublic },
            ),
            s@.is_pub ==> final(self)@.skipped == old(self)@.skipped || final(self)@.skipped
                == old(self)@.skipped.push(
                SkipNoteV { name: s@.name, reason: SkipReason::ExcludedByPredicate },
            ),
    {
        if !self.should_include_item(DeclRef::Struct(s)) {
            proof {
                assert(self@.skipped.take(old(self)@.skipped.len() as int) =~= old(
                    self,
                )@.skipped);
            }
            return;
        }
        proof {
            assert(self@.skipped.take(old(self)@.skipped.len() as int) =~= old(self)@.skipped);
        }
        self.rua.write_struct(m, s);
    }

    /// Routes an enum declaration through the filter to the backend.
    fn handle_item_enum(&mut self, m: &Module, e: &EnumNode)
        ensures
            final(self)@.modules == old(self)@.modules,
            seq_extends(old(self)@.skipped, final(self)@.skipped),
            !e@.is_pub ==> final(self)@.skipped == old(self)@.skipped.push(
                SkipNoteV { name: e@.name, reason: SkipReason::NotPublic },
            ),
            e@.is_pub ==> final(self)@.skipped == old(self)@.skipped || final(self)@.skipped
                == old(self)@.skipped.push(
                SkipNoteV { name: e@.name, reason: SkipReason::ExcludedByPredicate },
            ),
    {
        if !self.should_include_item(DeclRef::Enum(e)) {
            proof {
                assert(self@.skipped.take(old(self)@.skipped.len() as int) =~= old(
                    self,
                )@.skipped);
            }
            return;
        }
        proof {
            assert(self@.skipped.take(old(self)@.skipped.len() as int) =~= old(self)@.skipped);
        }
        self.rua.write_enum(m, e);
    }

    /// Routes a function declaration through the filter to the
    /// backend.
    fn handle_item_fn(&mut self, m: &Module, f: &FnNode)
        ensures
            final(self)@.modules == old(self)@.modules,
            seq_extends(old(self)@.skipped, final(self)@.skipped),
            !f@.is_pub ==> final(self)@.skipped == old(self)@.skipped.push(
                SkipNoteV { name: f@.name, reason: SkipReason::NotPublic },
            ),
            f@.is_pub ==> final(self)@.skipped == old(self)@.skipped || final(self)@.skipped
                == old(self)@.skipped.push(
                SkipNoteV { name: f@.name, reason: SkipReason::ExcludedByPredicate },
            ),
    {
        if !self.should_include_item(DeclRef::Fn(f)) {
            proof {
                assert(self@.skipped.take(old(self)@.skipped.len() as int) =~= old(
                    self,
                )@.skipped);
            }
            return;
        }
        proof {
            assert(self@.skipped.take(old(self)@.skipped.len() as int) =~= old(self)@.skipped);
        }
        self.rua.write_fn(m, f);
    }

    /// Reads a source file through the backend and parses it through
    /// the front end; a parse failure carries this path and the front
    /// end's own diagnostic.
    fn read_and_parse_file(&self, path: &str) -> (r: Result<FileNode, RuaError>)
        ensures
            match r {
                Ok(_) => true,
                Err(e) => match e@ {
                    RuaErrorV::FsError(f) => f matches RuaFsErrorV::ReadFileErr {
                        path: p,
                        ..
                    } && p == path@,
                    RuaErrorV::ParseError(pe) => pe.path == path@,
                    RuaErrorV::ConversionError(_) => false,
                },
            },
    {
        let data = match self.rua.read_file(path) {
            Ok(d) => d,
            Err(msg) => {
                let err = RuaFsError::ReadFileErr { path: path.to_owned(), err: msg };
                return Err(RuaError::FsError(err));
            },
        };
        match self.front_end.parse(data.as_str()) {
            Ok(f) => Ok(f),
            Err(msg) => Err(
                RuaError::ParseError(ParseError { path: path.to_owned(), err: msg }),
            ),
        }
    }

    /// Walks a parsed file's top-level declarations: nested module
    /// declarations are queued as file modules rooted at the current
    /// search directory; struct, enum and function declarations go
    /// through the filter to the backend; everything else is ignored.
    fn handle_parsed_file(&mut self, m: &Module, entry_path: &str, parsed: &FileNode)
        ensures
            final(self)@.modules == old(self)@.modules + spec_file_modules(
                parsed@.items,
                entry_path@,
            ),
            seq_extends(old(self)@.skipped, final(self)@.skipped),
            spec_private_notes(
                final(self)@.skipped.skip(old(self)@.skipped.len() as int),
            ) == spec_private_module_notes(parsed@.items),
    {
        let ghost base = self.modules.deep_view();
        let ghost sbase = self.skipped.deep_view();
        let ghost iv = parsed@.items;
        let n = parsed.items.len();
        let mut i: usize = 0;
        proof {
            assert(sbase.take(sbase.len() as int) =~= sbase);
            assert(iv.skip(0int) =~= iv);
            assert(sbase.skip(sbase.len() as int) =~= Seq::<SkipNoteV>::empty());
            assert(spec_private_notes(Seq::<SkipNoteV>::empty())
                + spec_private_module_notes(iv) =~= spec_private_module_notes(iv));
        }
        while i < n
            invariant
                0 <= i <= n,
                n == parsed.items@.len(),
                iv == parsed@.items,
                iv.len() == n,
                self.modules.deep_view() + spec_file_modules(iv.skip(i as int), entry_path@)
                    == base + spec_file_modules(iv, entry_path@),
                seq_extends(sbase, self.skipped.deep_view()),
                spec_private_notes(self.skipped.deep_view().skip(sbase.len() as int))
                    + spec_private_module_notes(iv.skip(i as int))
                    == spec_private_module_notes(iv),
            decreases n - i,
        {
            let ghost before = self.modules.deep_view();
            let ghost sbefore = self.skipped.deep_view();
            let ghost rest = iv.skip(i as int);
            proof {
                assert(rest.len() == n - i);
                assert(rest[0] == iv[i as int]);
                assert(iv[i as int] == parsed.items@[i as int]@);
                assert(rest.drop_first() =~= iv.skip(i as int + 1));
            }
            match &parsed.items[i] {
                ItemNode::Mod { m: item_mod } => {
                    self.handle_item_mod(entry_path, item_mod);
                    proof {
                        let mv = ModuleV {
                            name: item_mod@.name,
                            ty: RuaModuleType::FileModule,
                            root_path: entry_path@,
                        };
                        assert(rest[0] == ItemNodeV::Mod { m: item_mod@ });
                        assert(spec_file_modules(rest, entry_path@) == seq![mv]
                            + spec_file_modules(rest.drop_first(), entry_path@));
                        assert(self.modules.deep_view() == before.push(mv));
                        assert(before.push(mv) + spec_file_modules(
                            iv.skip(i as int + 1),
                            entry_path@,
                        ) =~= before + (seq![mv] + spec_file_modules(
                            iv.skip(i as int + 1),
                            entry_path@,
                        )));
                        let pa = sbefore.skip(sbase.len() as int);
                        if !item_mod@.is_pub {
                            let note = SkipNoteV {
                                name: item_mod@.name,
                                reason: SkipReason::PrivateModuleQueued,
                            };
                            assert(self.skipped.deep_view() == sbefore.push(note));
                            assert(self.skipped.deep_view().skip(sbase.len() as int) =~= pa
                                .push(note));
                            assert(pa.push(note).drop_last() =~= pa);
                            assert(spec_private_notes(pa.push(note)) == spec_private_notes(
                                pa,
                            ).push(note));
                            assert(spec_private_module_notes(rest) == seq![note]
                                + spec_private_module_notes(rest.drop_first()));
                            assert(spec_private_notes(pa).push(note)
                                + spec_private_module_notes(rest.drop_first())
                                =~= spec_private_notes(pa) + (seq![note]
                                + spec_private_module_notes(rest.drop_first())));
                        } else {
                            assert(self.skipped.deep_view() == sbefore);
                            assert(spec_private_module_notes(rest)
                                == spec_private_module_notes(rest.drop_first()));
                        }
                    }
                },
                ItemNode::Struct { s } => {
                    self.handle_item_struct(m, s);
                    proof {
                        assert(spec_file_modules(rest, entry_path@) == spec_file_modules(
                            rest.drop_first(),
                            entry_path@,
                        ));
                        assert(spec_private_module_notes(rest)
                            == spec_private_module_notes(rest.drop_first()));
                        let pa = sbefore.skip(sbase.len() as int);
                        if self.skipped.deep_view() != sbefore {
                            let note = self.skipped.deep_view().last();
                            assert(self.skipped.deep_view() == sbefore.push(note));
                            assert(note.reason != SkipReason::PrivateModuleQueued);
                            assert(self.skipped.deep_view().skip(sbase.len() as int) =~= pa
                                .push(note));
                            assert(pa.push(note).drop_last() =~= pa);
                            assert(spec_private_notes(pa.push(note)) == spec_private_notes(
                                pa,
                            ));
                        }
                    }
                },
                ItemNode::Enum { e } => {
                    self.handle_item_enum(m, e);
                    proof {
                        assert(spec_file_modules(rest, entry_path@) == spec_file_modules(
                            rest.drop_first(),
                            entry_path@,
                        ));
                        assert(spec_private_module_notes(rest)
                            == spec_private_module_notes(rest.drop_first()));
                        let pa = sbefore.skip(sbase.len() as int);
                        if self.skipped.deep_view() != sbefore {
                            let note = self.skipped.deep_view().last();
                            assert(self.skipped.deep_view() == sbefore.push(note));
                            assert(note.reason != SkipReason::PrivateModuleQueued);
                            assert(self.skipped.deep_view().skip(sbase.len() as int) =~= pa
                                .push(note));
                            assert(pa.push(note).drop_last() =~= pa);
                            assert(spec_private_notes(pa.push(note)) == spec_private_notes(
                                pa,
                            ));
                        }
                    }
                },
                ItemNode::Fn { f } => {
                    self.handle_item_fn(m, f);
                    proof {
                        assert(spec_file_modules(rest, entry_path@) == spec_file_modules(
                            rest.drop_first(),
                            entry_path@,
                        ));
                        assert(spec_private_module_notes(rest)
                            == spec_private_module_notes(rest.drop_first()));
                        let pa = sbefore.skip(sbase.len() as int);
                        if self.skipped.deep_view() != sbefore {
                            let note = self.skipped.deep_view().last();
                            assert(self.skipped.deep_view() == sbefore.push(note));
                            assert(note.reason != SkipReason::PrivateModuleQueued);
                            assert(self.skipped.deep_view().skip(sbase.len() as int) =~= pa
                                .push(note));
                            assert(pa.push(note).drop_last() =~= pa);
                            assert(spec_private_notes(pa.push(note)) == spec_private_notes(
                                pa,
                            ));
                        }
                    }
                },
                ItemNode::Other { .. } => {
                    proof {
                        assert(spec_file_modules(rest, entry_path@) == spec_file_modules(
                            rest.drop_first(),
                            entry_path@,
                        ));
                        assert(spec_private_module_notes(rest)
                            == spec_private_module_notes(rest.drop_first()));
                    }
                },
            }
            proof {
                assert(self.modules.deep_view() + spec_file_modules(
                    iv.skip(i as int + 1),
                    entry_path@,
                ) == base + spec_file_modules(iv, entry_path@));
                assert(seq_extends(sbefore, self.skipped.deep_view())) by {
                    assert(self.skipped.deep_view().take(sbefore.len() as int) =~= sbefore);
                }
                lemma_seq_extends_trans(sbase, sbefore, self.skipped.deep_view());
            }
            i = i + 1;
        }
        proof {
            assert(iv.skip(n as int) =~= Seq::<ItemNodeV>::empty());
            assert(spec_file_modules(iv.skip(n as int), entry_path@) == Seq::<
                ModuleV,
            >::empty());
            assert(self.modules.deep_view() + Seq::<ModuleV>::empty() =~= self
                .modules
                .deep_view());
            assert(spec_private_module_notes(iv.skip(n as int)) == Seq::<
                SkipNoteV,
            >::empty());
            assert(spec_private_notes(self.skipped.deep_view().skip(sbase.len() as int))
                + Seq::<SkipNoteV>::empty() =~= spec_private_notes(
                self.skipped.deep_view().skip(sbase.len() as int),
            ));
        }
    }

    /// Reads a crate-root module: its source file is
    /// `<root>/src/lib.rs` and its nested modules are sought under
    /// `<root>/src`.
    fn read_crate_module(&mut self, module: &Module) -> (r: Result<(), RuaError>)
        ensures
            seq_extends(old(self)@.skipped, final(self)@.skipped),
            match r {
                Ok(_) => exists|items: Seq<ItemNodeV>|
                    final(self)@.modules == old(self)@.modules + #[trigger] spec_file_modules(
                        items,
                        spec_join_path(module@.root_path, "src"@),
                    ) && spec_private_notes(
                        final(self)@.skipped.skip(old(self)@.skipped.len() as int),
                    ) == spec_private_module_notes(items),
                Err(e) => match e@ {
                    RuaErrorV::FsError(f) => f matches RuaFsErrorV::ReadFileErr {
                        path: p,
                        ..
                    } && p == spec_join_path(
                        spec_join_path(module@.root_path, "src"@),
                        "lib.rs"@,
                    ),
                    RuaErrorV::ParseError(pe) => pe.path == spec_join_path(
                        spec_join_path(module@.root_path, "src"@),
                        "lib.rs"@,
                    ),
                    RuaErrorV::ConversionError(_) => false,
                },
            },
    {
        proof {
            assert(seq_extends(self@.skipped, self@.skipped)) by {
                assert(self@.skipped.take(self@.skipped.len() as int) =~= self@.skipped);
            }
        }
        let entry_path = join_path(self.root_of(module).as_str(), "src");
        let file_path = join_path(entry_path.as_str(), "lib.rs");
        let parsed = match self.read_and_parse_file(file_path.as_str()) {
            Ok(f) => f,
            Err(e) => {
                return Err(e);
            },
        };
        self.handle_parsed_file(module, entry_path.as_str(), &parsed);
        proof {
            assert(final(self)@.modules == old(self)@.modules + spec_file_modules(
                parsed@.items,
                spec_join_path(module@.root_path, "src"@),
            ));
        }
        Ok(())
    }

    /// Reads one pending module, by its kind.
    fn read_module(&mut self, module: &Module) -> (r: Result<(), RuaError>)
        ensures
            seq_extends(old(self)@.skipped, final(self)@.skipped),
    {
        match module.ty {
            RuaModuleType::CrateModule => self.read_crate_module(module),
            RuaModuleType::FileModule => self.read_file_module(module),
        }
    }

    /// Runs the resolver: reads the entry manifest, then pops and
    /// reads pending modules until the work stack is empty. The first
    /// failure aborts the whole run; on success every discovered
    /// module has been read and the stack is empty.
    pub fn run(&mut self) -> (r: Result<(), RuaError>)
        ensures
            r is Ok ==> final(self)@.modules.len() == 0,
            seq_extends(old(self)@.skipped, final(self)@.skipped),
    {
        proof {
            assert(seq_extends(self@.skipped, self@.skipped)) by {
                assert(self@.skipped.take(self@.skipped.len() as int) =~= self@.skipped);
            }
        }
        match self.read_entry_module() {
            Ok(_) => {},
            Err(e) => {
                return Err(e);
            },
        }
        let mut budget: usize = usize::MAX;
        while budget > 0
            invariant
                seq_extends(old(self)@.skipped, self@.skipped),
            decreases budget,
        {
            let next = self.modules.pop();
            match next {
                None => {
                    proof {
                        assert(self.modules.deep_view().len() == 0);
                    }
                    return Ok(());
                },
                Some(module) => {
                    let ghost sbefore = self@.skipped;
                    match self.read_module(&module) {
                        Ok(_) => {},
                        Err(e) => {
                            proof {
                                lemma_seq_extends_trans(
                                    old(self)@.skipped,
                                    sbefore,
                                    self@.skipped,
                                );
                            }
                            return Err(e);
                        },
                    }
                    proof {
                        lemma_seq_extends_trans(old(self)@.skipped, sbefore, self@.skipped);
                    }
                },
            }
            budget = budget - 1;
        }
        // No real module tree reaches this many modules; refusing
        // here keeps the traversal provably finite.
        let err = RuaFsError::ReadFileErr {
            path: self.rua.entry_path(),
            err: String::from_str("module traversal budget exhausted"),
        };
        Err(RuaError::FsError(err))
    }
}

} // verus!
