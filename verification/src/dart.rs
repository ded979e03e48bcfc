//! A Dart-flavored backend: for each accepted declaration it derives
//! the native name (snake_case, qualified by the owning module) and
//! the Dart-side names (PascalCase for types, camelCase for
//! functions), and accumulates them as its output state.

use vstd::prelude::*;

use crate::config::{spec_native_entry, RuaConfig, RuaConfigV};
use crate::logic::Module;
use crate::nodes::{EnumNode, FnNode, StructNode};
use crate::utils::{
    spec_to_camel_case, spec_to_pascal_case, spec_to_snake_case, to_camel_case, to_pascal_case,
    to_snake_case,
};

verus! {

/// The mathematical view of a [`RuaDart`].
pub struct RuaDartV {
    pub config: RuaConfigV,
    pub type_defs: Seq<Seq<char>>,
    pub fn_defs: Seq<Seq<char>>,
    pub class_defs: Seq<Seq<char>>,
    pub enum_defs: Seq<Seq<char>>,
}

/// The Dart backend: its configuration and the names it has derived
/// so far, one list per declaration kind.
#[derive(Debug)]
pub struct RuaDart {
    config: RuaConfig,
    type_defs: Vec<String>,
    fn_defs: Vec<String>,
    class_defs: Vec<String>,
    enum_defs: Vec<String>,
}

impl View for RuaDart {
    type V = RuaDartV;

    closed spec fn view(&self) -> RuaDartV {
        RuaDartV {
            config: self.config@,
            type_defs: self.type_defs.deep_view(),
            fn_defs: self.fn_defs.deep_view(),
            class_defs: self.class_defs.deep_view(),
            enum_defs: self.enum_defs.deep_view(),
        }
    }
}

/// The native name a declaration gets: the owning module's name and
/// the declaration's own name, both in snake_case, joined by an
/// underscore.
pub open spec fn spec_native_name(module: Seq<char>, decl: Seq<char>) -> Seq<char> {
    spec_to_snake_case(module) + "_"@ + spec_to_snake_case(decl)
}

/// Derives the native name of a declaration.
pub fn native_name(module: &str, decl: &str) -> (r: String)
    ensures
        r@ == spec_native_name(module@, decl@),
{
    let a = to_snake_case(module);
    let b = to_snake_case(decl);
    let mut r = String::new();
    r.append(a.as_str());
    r.append("_");
    r.append(b.as_str());
    proof {
        assert(r@ =~= spec_native_name(module@, decl@));
    }
    r
}

impl RuaDart {
    /// Creates a backend over a configuration, with no derived names
    /// yet.
    pub fn new(config: RuaConfig) -> (r: Self)
        ensures
            r@.config == config@,
            r@.type_defs.len() == 0,
            r@.fn_defs.len() == 0,
            r@.class_defs.len() == 0,
            r@.enum_defs.len() == 0,
    {
        let r = RuaDart {
            config,
            type_defs: Vec::new(),
            fn_defs: Vec::new(),
            class_defs: Vec::new(),
            enum_defs: Vec::new(),
        };
        proof {
            assert(r@.type_defs =~= Seq::<Seq<char>>::empty());
            assert(r@.fn_defs =~= Seq::<Seq<char>>::empty());
            assert(r@.class_defs =~= Seq::<Seq<char>>::empty());
            assert(r@.enum_defs =~= Seq::<Seq<char>>::empty());
        }
        r
    }

    /// The root at which resolution begins: the configured native
    /// entry.
    pub fn entry_path(&self) -> (r: String)
        ensures
            r@ == spec_native_entry(self@.config),
    {
        let mut r = String::new();
        r.append(self.config.get_native_entry());
        proof {
            assert(r@ =~= spec_native_entry(self@.config));
        }
        r
    }

    /// The backend's configuration.
    pub fn config(&self) -> (r: &RuaConfig)
        ensures
            r@ == self@.config,
    {
        &self.config
    }

    /// The Dart type names derived for functions so far.
    pub fn type_defs(&self) -> (r: &Vec<String>)
        ensures
            r.deep_view() == self@.type_defs,
    {
        &self.type_defs
    }

    /// The Dart function names derived so far.
    pub fn fn_defs(&self) -> (r: &Vec<String>)
        ensures
            r.deep_view() == self@.fn_defs,
    {
        &self.fn_defs
    }

    /// The Dart class names derived for structs so far.
    pub fn class_defs(&self) -> (r: &Vec<String>)
        ensures
            r.deep_view() == self@.class_defs,
    {
        &self.class_defs
    }

    /// The Dart enum names derived so far.
    pub fn enum_defs(&self) -> (r: &Vec<String>)
        ensures
            r.deep_view() == self@.enum_defs,
    {
        &self.enum_defs
    }

    /// Derives a function's names: the PascalCase native-type name
    /// joins the type list and the camelCase name joins the function
    /// list.
    pub fn write_fn(&mut self, m: &Module, f: &FnNode)
        ensures
            final(self)@.config == old(self)@.config,
            final(self)@.type_defs == old(self)@.type_defs.push(
                spec_to_pascal_case(spec_native_name(m@.name, f@.name)),
            ),
            final(self)@.fn_defs == old(self)@.fn_defs.push(
                spec_to_camel_case(spec_native_name(m@.name, f@.name)),
            ),
            final(self)@.class_defs == old(self)@.class_defs,
            final(self)@.enum_defs == old(self)@.enum_defs,
    {
        let native_type_name = native_name(m.name.as_str(), f.name.as_str());
        let dart_type_name = to_pascal_case(native_type_name.as_str());
        let dart_name = to_camel_case(native_type_name.as_str());
        let ghost t0 = self.type_defs.deep_view();
        let ghost f0 = self.fn_defs.deep_view();
        self.type_defs.push(dart_type_name);
        self.fn_defs.push(dart_name);
        proof {
            assert(self.type_defs.deep_view() =~= t0.push(
                spec_to_pascal_case(spec_native_name(m@.name, f@.name)),
            ));
            assert(self.fn_defs.deep_view() =~= f0.push(
                spec_to_camel_case(spec_native_name(m@.name, f@.name)),
            ));
        }
    }

    /// Derives a struct's Dart class name: the PascalCase native
    /// name.
    pub fn write_struct(&mut self, m: &Module, s: &StructNode)
        ensures
            final(self)@.config == old(self)@.config,
            final(self)@.type_defs == old(self)@.type_defs,
            final(self)@.fn_defs == old(self)@.fn_defs,
            final(self)@.class_defs == old(self)@.class_defs.push(
                spec_to_pascal_case(spec_native_name(m@.name, s@.name)),
            ),
            final(self)@.enum_defs == old(self)@.enum_defs,
    {
        let native = native_name(m.name.as_str(), s.name.as_str());
        let dart_class_name = to_pascal_case(native.as_str());
        let ghost c0 = self.class_defs.deep_view();
        self.class_defs.push(dart_class_name);
        proof {
            assert(self.class_defs.deep_view() =~= c0.push(
                spec_to_pascal_case(spec_native_name(m@.name, s@.name)),
            ));
        }
    }

    /// Derives an enum's Dart name: the PascalCase native name.
    pub fn write_enum(&mut self, m: &Module, e: &EnumNode)
        ensures
            final(self)@.config == old(self)@.config,
            final(self)@.type_defs == old(self)@.type_defs,
            final(self)@.fn_defs == old(self)@.fn_defs,
            final(self)@.class_defs == old(self)@.class_defs,
            final(self)@.enum_defs == old(self)@.enum_defs.push(
                spec_to_pascal_case(spec_native_name(m@.name, e@.name)),
            ),
    {
        let native = native_name(m.name.as_str(), e.name.as_str());
        let dart_enum_name = to_pascal_case(native.as_str());
        let ghost e0 = self.enum_defs.deep_view();
        self.enum_defs.push(dart_enum_name);
        proof {
            assert(self.enum_defs.deep_view() =~= e0.push(
                spec_to_pascal_case(spec_native_name(m@.name, e@.name)),
            ));
        }
    }
}

} // verus!
