use vstd::prelude::*;
use crate::modules::http::{
    distinct_types, insert_by_order, module_types, orders_negatable, HttpModuleCtx, HttpModules,
    ModuleBuilder,
};

verus! {

/// Length in bytes of the HTTP/2 client connection preface.
pub const H2_PREFACE_LEN: usize = 24;

/// The HTTP/2 client connection preface, `PRI * HTTP/2.0\r\n\r\nSM\r\n\r\n`
/// (RFC 9113, section 3.4).
pub open spec fn h2_preface() -> Seq<u8> {
    seq![
        0x50u8, 0x52, 0x49, 0x20, 0x2a, 0x20, 0x48, 0x54, 0x54, 0x50, 0x2f, 0x32,
        0x2e, 0x30, 0x0d, 0x0a, 0x0d, 0x0a, 0x53, 0x4d, 0x0d, 0x0a, 0x0d, 0x0a,
    ]
}

/// The HTTP/2 client connection preface as bytes.
pub fn h2_preface_bytes() -> (preface: Vec<u8>)
    ensures
        preface@ == h2_preface(),
        preface.len() == H2_PREFACE_LEN,
{
    let preface: Vec<u8> = vec![
        0x50u8, 0x52, 0x49, 0x20, 0x2a, 0x20, 0x48, 0x54, 0x54, 0x50, 0x2f, 0x32,
        0x2e, 0x30, 0x0d, 0x0a, 0x0d, 0x0a, 0x53, 0x4d, 0x0d, 0x0a, 0x0d, 0x0a,
    ];
    assert(preface@ =~= h2_preface());
    preface
}

/// Whether `buf` holds exactly the HTTP/2 client connection preface.
pub fn is_h2_preface(buf: &[u8]) -> (found: bool)
    ensures
        found == (buf@ == h2_preface()),
{
    let preface = h2_preface_bytes();
    if buf.len() != preface.len() {
        return false;
    }
    let mut i: usize = 0;
    while i < buf.len()
        invariant
            i <= buf.len(),
            buf.len() == preface.len(),
            preface@ == h2_preface(),
            forall|j: int| 0 <= j < i ==> buf@[j] == preface@[j],
        decreases buf.len() - i,
    {
        if buf[i] != preface[i] {
            return false;
        }
        i = i + 1;
    }
    assert(buf@ =~= h2_preface());
    true
}

/// HTTP server options that control how the server handles some transport types.
#[non_exhaustive]
pub struct HttpServerOptions {
    /// Use HTTP/2 for plaintext.
    pub h2c: bool,
}

impl Default for HttpServerOptions {
    fn default() -> (options: Self)
        ensures
            !options.h2c,
    {
        HttpServerOptions { h2c: false }
    }
}

/// An HTTP server made of an application that maps each request to a
/// response, and of the HTTP modules that filter requests and responses.
pub struct HttpServer<SV> {
    app: SV,
    modules: HttpModules,
}

impl<SV> HttpServer<SV> {
    /// The application.
    pub closed spec fn app_spec(self) -> SV {
        self.app
    }

    /// The module builders, largest order first.
    pub closed spec fn modules(self) -> Seq<ModuleBuilder> {
        self.modules.modules()
    }

    /// Whether the module contexts have been built, after which no module can be added.
    pub closed spec fn modules_built(self) -> bool {
        self.modules.is_built()
    }

    /// Create a new [HttpServer] with the given application and no module.
    pub fn new_app(app: SV) -> (server: Self)
        ensures
            server.app_spec() == app,
            server.modules() == Seq::<ModuleBuilder>::empty(),
            !server.modules_built(),
    {
        HttpServer { app, modules: HttpModules::new() }
    }

    /// Add a module to this [HttpServer]. Its filters run after those of
    /// every module of equal or larger order and before those of every
    /// module of smaller order.
    pub fn add_module(&mut self, module: ModuleBuilder)
        requires
            !old(self).modules_built(),
            old(self).modules().len() > 0 ==> orders_negatable(old(self).modules().push(module)),
        ensures
            final(self).modules() == insert_by_order(old(self).modules(), module),
            !final(self).modules_built(),
            final(self).app_spec() == old(self).app_spec(),
    {
        self.modules.add_module(module)
    }

    /// Whether `module` can be added now (see [HttpModules::can_add]).
    pub fn can_add_module(&self, module: &ModuleBuilder) -> (ok: bool)
        ensures
            ok == (!self.modules_built() && (self.modules().len() > 0 ==> orders_negatable(
                self.modules().push(*module),
            ))),
    {
        self.modules.can_add(module)
    }

    /// Whether the module types are distinct, which building the module
    /// contexts for the first time demands.
    pub fn modules_distinct(&self) -> (ok: bool)
        ensures
            ok == distinct_types(self.modules()),
    {
        self.modules.types_distinct()
    }

    /// The application.
    pub fn app(&self) -> (app: &SV)
        ensures
            *app == self.app_spec(),
    {
        &self.app
    }

    /// Build the per-request module contexts, in the order in which their
    /// filters run.
    pub fn build_module_ctx(&mut self) -> (ctx: HttpModuleCtx)
        requires
            !old(self).modules_built() ==> distinct_types(old(self).modules()),
        ensures
            ctx.module_types() == module_types(old(self).modules()),
            final(self).modules() == old(self).modules(),
            final(self).modules_built(),
            final(self).app_spec() == old(self).app_spec(),
    {
        self.modules.build_ctx()
    }
}

} // verus!
