//! The interop layer: module bytes are compiled and instantiated by the
//! native engine, imports that the module never calls are stubbed, and every
//! export is bound on the script side.

use crate::error::BridgeError;
use vstd::prelude::*;
use wasmtime::{Config, Engine, Extern, ExternType, Linker, Module};

verus! {

/// `wasmtime::Engine`: the compiler and its configuration. Nothing inside
/// it is visible here.
#[verifier::external_type_specification]
#[verifier::external_body]
pub struct ExEngine(wasmtime::Engine);

/// `wasmtime::Module`: a compiled module. Nothing inside it is visible here.
#[verifier::external_type_specification]
#[verifier::external_body]
pub struct ExModule(wasmtime::Module);

/// `wasmtime::Store`: the owner of instances and their memories. Nothing
/// inside it is visible here.
#[verifier::external_type_specification]
#[verifier::external_body]
#[verifier::reject_recursive_types(T)]
pub struct ExStore<T: 'static>(wasmtime::Store<T>);

/// `wasmtime::Instance`: an instantiated module, a handle into its store.
/// Nothing inside it is visible here.
#[verifier::external_type_specification]
#[verifier::external_body]
pub struct ExInstance(wasmtime::Instance);

/// What kind of item a module imports or exports.
#[derive(Debug, Clone, Copy, PartialEq, Eq, Structural)]
pub enum ExternKind {
    Function,
    Global,
    Table,
    Memory,
    Tag,
}

/// One import that a module declares.
#[derive(Debug, PartialEq, Eq)]
pub struct ImportDecl {
    pub module: String,
    pub name: String,
    pub kind: ExternKind,
}

impl ImportDecl {
    /// The two names and the kind.
    pub open spec fn view(&self) -> (Seq<char>, Seq<char>, ExternKind) {
        (self.module@, self.name@, self.kind)
    }

    /// The import `name` of kind `kind` from the module `module`.
    pub fn new(module: &str, name: &str, kind: ExternKind) -> (import: Self)
        ensures
            import@ == (module@, name@, kind),
    {
        ImportDecl { module: module.to_owned(), name: name.to_owned(), kind }
    }
}

/// One export, by name and kind.
#[derive(Debug, PartialEq, Eq)]
pub struct ExportDecl {
    pub name: String,
    pub kind: ExternKind,
}

impl ExportDecl {
    /// The name and the kind.
    pub open spec fn view(&self) -> (Seq<char>, ExternKind) {
        (self.name@, self.kind)
    }

    /// The export `name` of kind `kind`.
    pub fn new(name: &str, kind: ExternKind) -> (export: Self)
        ensures
            export@ == (name@, kind),
    {
        ExportDecl { name: name.to_owned(), kind }
    }

    /// Tests whether name and kind agree.
    pub fn same_as(&self, other: &ExportDecl) -> (same: bool)
        ensures
            same == (self@ == other@),
    {
        self.name == other.name && self.kind == other.kind
    }
}

/// How an export is reached from the script side.
#[derive(Debug, Clone, Copy, PartialEq, Eq, Structural)]
pub enum Binding {
    /// A function that the script can call.
    Callable,
    /// A byte-addressable view of linear memory that the script reads and
    /// writes.
    MemoryView,
    /// An item that the script only passes on.
    Opaque,
}

/// The binding for an export of `kind`.
pub open spec fn binding_of(kind: ExternKind) -> Binding {
    match kind {
        ExternKind::Function => Binding::Callable,
        ExternKind::Memory => Binding::MemoryView,
        ExternKind::Global => Binding::Opaque,
        ExternKind::Table => Binding::Opaque,
        ExternKind::Tag => Binding::Opaque,
    }
}

/// The binding for an export of `kind`.
pub fn bind(kind: ExternKind) -> (binding: Binding)
    ensures
        binding == binding_of(kind),
{
    match kind {
        ExternKind::Function => Binding::Callable,
        ExternKind::Memory => Binding::MemoryView,
        ExternKind::Global => Binding::Opaque,
        ExternKind::Table => Binding::Opaque,
        ExternKind::Tag => Binding::Opaque,
    }
}

/// One entry of the exports object that the script receives.
#[derive(Debug, PartialEq, Eq)]
pub struct ExportEntry {
    pub name: String,
    pub binding: Binding,
}

impl ExportEntry {
    /// The name and the binding.
    pub open spec fn view(&self) -> (Seq<char>, Binding) {
        (self.name@, self.binding)
    }
}

/// The names and kinds of a list of exports.
pub open spec fn export_views(exports: Seq<ExportDecl>) -> Seq<(Seq<char>, ExternKind)> {
    exports.map_values(|e: ExportDecl| e@)
}

/// The names and kinds of a list of imports.
pub open spec fn import_views(imports: Seq<ImportDecl>) -> Seq<(Seq<char>, Seq<char>, ExternKind)> {
    imports.map_values(|i: ImportDecl| i@)
}

/// The names and bindings of a list of entries.
pub open spec fn entry_views(entries: Seq<ExportEntry>) -> Seq<(Seq<char>, Binding)> {
    entries.map_values(|e: ExportEntry| e@)
}

/// The exports object for a module that declares `declared`: one entry per
/// export, in the order of declaration, under the same name.
pub open spec fn bound(declared: Seq<ExportDecl>) -> Seq<(Seq<char>, Binding)> {
    declared.map_values(|e: ExportDecl| (e.name@, binding_of(e.kind)))
}

/// The first position at or after `from` where `declared` and `live` do not
/// both hold the same export.
pub open spec fn first_gap(declared: Seq<ExportDecl>, live: Seq<ExportDecl>, from: int) -> int
    decreases declared.len() - from,
{
    if from < 0 || from >= declared.len() || from >= live.len() || declared[from]@ != live[from]@ {
        from
    } else {
        first_gap(declared, live, from + 1)
    }
}

/// The name of the export at which the live instance departs from the
/// declaration: that of the declared export where there is one, else that of
/// the surplus live export.
pub open spec fn gap_name(declared: Seq<ExportDecl>, live: Seq<ExportDecl>) -> Seq<char> {
    let at = first_gap(declared, live, 0);
    if at < declared.len() {
        declared[at].name@
    } else {
        live[at].name@
    }
}

/// Every declared export appears in what `bound` yields, under its name and
/// with the binding of its kind.
pub proof fn lemma_every_export_bound(declared: Seq<ExportDecl>, at: int)
    requires
        0 <= at < declared.len(),
    ensures
        bound(declared).len() == declared.len(),
        bound(declared)[at] == (declared[at].name@, binding_of(declared[at].kind)),
        bound(declared).contains((declared[at].name@, binding_of(declared[at].kind))),
{
}

/// Binds the exports of a live instance against the module's declaration.
/// It succeeds exactly when the instance exposes the declared exports, one
/// for one, and then yields one entry per declared export. Otherwise it
/// reports the first export at which the two part.
pub fn bind_exports(declared: &Vec<ExportDecl>, live: &Vec<ExportDecl>) -> (table: Result<
    Vec<ExportEntry>,
    BridgeError,
>)
    ensures
        match table {
            Ok(entries) => export_views(live@) == export_views(declared@) && entry_views(entries@)
                == bound(declared@),
            Err(BridgeError::InstantiationError(message)) => export_views(live@) != export_views(
                declared@,
            ) && message@ == gap_name(declared@, live@),
            Err(_) => false,
        },
{
    let mut entries: Vec<ExportEntry> = Vec::new();
    let mut i: usize = 0;
    while i < declared.len()
        invariant
            i <= declared.len(),
            i <= live.len(),
            first_gap(declared@, live@, 0) == first_gap(declared@, live@, i as int),
            forall|j: int| 0 <= j < i ==> declared@[j]@ == live@[j]@,
            entry_views(entries@) == bound(declared@).subrange(0, i as int),
        decreases declared.len() - i,
    {
        if i >= live.len() || !declared[i].same_as(&live[i]) {
            proof {
                if export_views(live@) == export_views(declared@) {
                    assert(export_views(live@).len() == live@.len());
                    assert(export_views(declared@).len() == declared@.len());
                    assert(export_views(live@)[i as int] == live@[i as int]@);
                    assert(export_views(declared@)[i as int] == declared@[i as int]@);
                }
            }
            return Err(BridgeError::InstantiationError(declared[i].name.clone()));
        }
        let ghost before = entries@;
        assert(before.len() == i) by {
            assert(entry_views(before).len() == before.len());
        }
        let entry = ExportEntry { name: declared[i].name.clone(), binding: bind(declared[i].kind) };
        assert(entry@ == bound(declared@)[i as int]);
        entries.push(entry);
        assert(entries@.len() == i + 1);
        assert forall|j: int| 0 <= j < i + 1 implies entry_views(entries@)[j] == bound(
            declared@,
        ).subrange(0, i + 1)[j] by {
            if j < i {
                assert(entry_views(before)[j] == bound(declared@).subrange(0, i as int)[j]);
            }
        }
        assert(entry_views(entries@) =~= bound(declared@).subrange(0, i + 1));
        i += 1;
    }
    if live.len() > declared.len() {
        assert(export_views(live@).len() != export_views(declared@).len());
        return Err(BridgeError::InstantiationError(live[i].name.clone()));
    }
    assert(export_views(live@) =~= export_views(declared@));
    assert(bound(declared@).subrange(0, i as int) =~= bound(declared@));
    Ok(entries)
}

/// Concludes an instantiation from what the engine reported: a link failure
/// is passed on as an instantiation error with the engine's message, and the
/// exports of a live instance are bound against the declaration.
pub fn conclude(declared: &Vec<ExportDecl>, linked: Result<Vec<ExportDecl>, String>) -> (table:
    Result<Vec<ExportEntry>, BridgeError>)
    ensures
        match (linked, table) {
            (Err(reason), Err(BridgeError::InstantiationError(message))) => message@ == reason@,
            (Ok(live), Ok(entries)) => export_views(live@) == export_views(declared@)
                && entry_views(entries@) == bound(declared@),
            (Ok(live), Err(BridgeError::InstantiationError(message))) => export_views(live@)
                != export_views(declared@) && message@ == gap_name(declared@, live@),
            _ => false,
        },
{
    match linked {
        Err(reason) => Err(BridgeError::InstantiationError(reason)),
        Ok(live) => bind_exports(declared, &live),
    }
}

/// A module instance with the store that owns it.
pub struct Live {
    store: wasmtime::Store<()>,
    instance: wasmtime::Instance,
}

impl Live {
    /// The store and the instance that it owns.
    pub closed spec fn parts(self) -> (wasmtime::Store<()>, wasmtime::Instance) {
        (self.store, self.instance)
    }

    /// Hands out the store and the instance, for the calls that the script
    /// side makes into them.
    pub fn into_parts(self) -> (parts: (wasmtime::Store<()>, wasmtime::Instance))
        ensures
            parts == self.parts(),
    {
        (self.store, self.instance)
    }
}

/// An instantiated module as the script side receives it.
pub struct Instantiated {
    /// The running instance.
    pub live: Live,
    /// The imports that the module declares, each bound to a stub.
    pub stubbed: Vec<ImportDecl>,
    /// The exports that the module declares.
    pub declared: Vec<ExportDecl>,
    /// The exports object: one entry per declared export.
    pub exports: Vec<ExportEntry>,
}

/// The imports and exports that a module declares.
#[derive(Debug, PartialEq, Eq)]
pub struct ModuleShape {
    pub imports: Vec<ImportDecl>,
    pub exports: Vec<ExportDecl>,
}

/// The imports that a module in binary form with these bytes declares, each
/// by its two names and its kind, in the order of its import section. It
/// speaks of the bytes that the engine accepts as a module.
pub uninterp spec fn declared_imports_of(bytes: Seq<u8>) -> Seq<(Seq<char>, Seq<char>, ExternKind)>;

/// The exports that a module in binary form with these bytes declares, each
/// by name and kind, in the order of its export section. It speaks of the
/// bytes that the engine accepts as a module.
pub uninterp spec fn declared_exports_of(bytes: Seq<u8>) -> Seq<(Seq<char>, ExternKind)>;

/// A compiled module with the imports and exports that it declares.
pub struct Compiled {
    module: wasmtime::Module,
    imports: Vec<ImportDecl>,
    exports: Vec<ExportDecl>,
}

/// The fuel that a module may burn while it is instantiated, where the
/// host names no other budget: about one unit for each instruction that its
/// start function executes.
pub const INSTANTIATION_FUEL: u64 = 1_000_000_000;

/// `wasmtime::Engine::new` on a configuration that is the default but for
/// `wasmtime::Config::consume_fuel`, which is switched on: code that the
/// engine compiles burns fuel as it runs and traps when it has none left.
/// A configuration that the machine cannot serve comes back as the engine's
/// message.
#[verifier::external_body]
fn metered_engine() -> (engine: Result<wasmtime::Engine, String>) {
    let mut config = Config::new();
    config.consume_fuel(true);
    Engine::new(&config).map_err(|e| e.to_string())
}

/// `wasmtime::Module::new`, which decodes, validates and compiles a module
/// in binary form, with `wasmtime::Module::imports` and
/// `wasmtime::Module::exports` on the module, handed out as names and
/// kinds. Nothing is claimed of which bytes the engine accepts; a refusal
/// comes back as the engine's message. Of an accepted module the two lists
/// are what its bytes declare.
#[verifier::external_body]
fn compile(engine: &wasmtime::Engine, bytes: &[u8]) -> (compiled: Result<Compiled, String>)
    ensures
        compiled matches Ok(made) ==> import_views(made.imports@) == declared_imports_of(bytes@)
            && export_views(made.exports@) == declared_exports_of(bytes@),
{
    let module = Module::new(engine, bytes).map_err(|e| e.to_string())?;
    let kind = |ty: ExternType| match ty {
        ExternType::Func(_) => ExternKind::Function,
        ExternType::Global(_) => ExternKind::Global,
        ExternType::Table(_) => ExternKind::Table,
        ExternType::Memory(_) => ExternKind::Memory,
        ExternType::Tag(_) => ExternKind::Tag,
    };
    let imports =
        module.imports().map(|i| ImportDecl::new(i.module(), i.name(), kind(i.ty()))).collect();
    let exports = module.exports().map(|e| ExportDecl::new(e.name(), kind(e.ty()))).collect();
    Ok(Compiled { module, imports, exports })
}

/// `wasmtime::Store::set_fuel`, `wasmtime::Linker::define_unknown_imports_as_default_values`
/// and `wasmtime::Linker::instantiate`, on a fresh store and linker of the
/// module's own engine: the store is given `fuel`, every import is given
/// the default item of its declared type (for a function, one that ignores
/// its arguments and returns zeroes), and the module is instantiated
/// against them, which runs its start function. The run ends when the
/// start function returns, traps, or has burnt the fuel; on an engine that
/// does not meter, no fuel can be given and nothing is run. Nothing is
/// claimed of the outcome; a failure comes back as the engine's message.
#[verifier::external_body]
fn link_with_stubs(module: &wasmtime::Module, fuel: u64) -> (linked: Result<Live, String>) {
    let mut store = wasmtime::Store::new(module.engine(), ());
    store.set_fuel(fuel).map_err(|e| e.to_string())?;
    let mut linker = Linker::<()>::new(module.engine());
    linker.define_unknown_imports_as_default_values(&mut store, module).map_err(|e| e.to_string())?;
    let instance = linker.instantiate(&mut store, module).map_err(|e| e.to_string())?;
    Ok(Live { store, instance })
}

/// `wasmtime::Instance::exports`: the items that the instance exposes, each
/// with its name and its kind; a shared memory counts as a memory. Nothing is
/// claimed of the list.
#[verifier::external_body]
fn live_exports(live: &mut Live) -> (exports: Vec<ExportDecl>) {
    live.instance.exports(&mut live.store).map(|export| ExportDecl {
        name: export.name().to_string(),
        kind: match export.into_extern() {
            Extern::Func(_) => ExternKind::Function,
            Extern::Global(_) => ExternKind::Global,
            Extern::Table(_) => ExternKind::Table,
            Extern::Memory(_) => ExternKind::Memory,
            Extern::SharedMemory(_) => ExternKind::Memory,
            Extern::Tag(_) => ExternKind::Tag,
        },
    }).collect()
}

/// Passes on what the engine made of the bytes: what it compiled, or its
/// refusal as a compile error with the engine's message.
pub fn accept_compiled<T>(compiled: Result<T, String>) -> (accepted: Result<T, BridgeError>)
    ensures
        match (compiled, accepted) {
            (Ok(made), Ok(kept)) => kept == made,
            (Err(reason), Err(BridgeError::CompileError(message))) => message == reason,
            _ => false,
        },
{
    match compiled {
        Ok(made) => Ok(made),
        Err(reason) => Err(BridgeError::CompileError(reason)),
    }
}

/// Lists what a module in binary form imports and exports. It fails only
/// where the engine cannot be had or refuses the bytes, with a compile
/// error; otherwise the lists are those that the bytes declare.
pub fn describe(bytes: &[u8]) -> (shape: Result<ModuleShape, BridgeError>)
    ensures
        match shape {
            Ok(found) => import_views(found.imports@) == declared_imports_of(bytes@)
                && export_views(found.exports@) == declared_exports_of(bytes@),
            Err(e) => e is CompileError,
        },
{
    let engine = match accept_compiled(metered_engine()) {
        Ok(engine) => engine,
        Err(e) => {
            return Err(e);
        },
    };
    match accept_compiled(compile(&engine, bytes)) {
        Ok(made) => Ok(ModuleShape { imports: made.imports, exports: made.exports }),
        Err(e) => Err(e),
    }
}

/// Performs the script's `instantiate(bytes, imports)` natively, with
/// `INSTANTIATION_FUEL` as the budget of the module's start function.
pub fn instantiate(bytes: &[u8]) -> (outcome: Result<Instantiated, BridgeError>)
    ensures
        instantiated(bytes@, outcome),
{
    instantiate_within(bytes, INSTANTIATION_FUEL)
}

/// What an instantiation of `bytes` yields: on success every import that
/// the bytes declare was bound to a stub, and the exports object holds one
/// entry for every export that the bytes declare, in their order and under
/// their names; a failure is a compile error or an instantiation error.
pub open spec fn instantiated(bytes: Seq<u8>, outcome: Result<Instantiated, BridgeError>) -> bool {
    match outcome {
        Ok(host) => import_views(host.stubbed@) == declared_imports_of(bytes)
            && export_views(host.declared@) == declared_exports_of(bytes) && entry_views(
            host.exports@,
        ) == bound(host.declared@),
        Err(e) => e is CompileError || e is InstantiationError,
    }
}

/// Performs the script's `instantiate(bytes, imports)` natively. Bytes that
/// the engine refuses give a compile error; a module that cannot be linked,
/// whose start function traps or burns more than `fuel`, or whose instance
/// lacks a declared export, gives an instantiation error: the call returns
/// whatever the module does. On success every import that the bytes declare
/// was bound to a stub, and the exports object holds one entry for every
/// export that the bytes declare, in their order and under their names:
/// function exports callable, memory exports as byte views.
pub fn instantiate_within(bytes: &[u8], fuel: u64) -> (outcome: Result<Instantiated, BridgeError>)
    ensures
        instantiated(bytes@, outcome),
{
    let engine = match accept_compiled(metered_engine()) {
        Ok(engine) => engine,
        Err(e) => {
            return Err(e);
        },
    };
    let made = match accept_compiled(compile(&engine, bytes)) {
        Ok(made) => made,
        Err(e) => {
            return Err(e);
        },
    };
    let (live, exposed) = match link_with_stubs(&made.module, fuel) {
        Ok(mut live) => {
            let exposed = live_exports(&mut live);
            (Some(live), Ok(exposed))
        },
        Err(reason) => (None, Err(reason)),
    };
    let exports = match conclude(&made.exports, exposed) {
        Ok(exports) => exports,
        Err(e) => {
            return Err(e);
        },
    };
    match live {
        Some(live) => Ok(
            Instantiated { live, stubbed: made.imports, declared: made.exports, exports },
        ),
        None => vstd::pervasive::unreached(),
    }
}

} // verus!
