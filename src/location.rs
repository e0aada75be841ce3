//! Where the backend executable lives inside the resource bundle, and what a
//! launch of it looks like.

use vstd::prelude::*;

verus! {

/// Directory, relative to the resource directory, that holds the executable.
pub open spec fn bin_dir() -> Seq<char> {
    "bin"@
}

/// File name of the backend executable.
pub open spec fn backend_exe_name() -> Seq<char> {
    "lcai_api.exe"@
}

/// Environment variable that tells the backend which local port to bind.
pub open spec fn port_var() -> Seq<char> {
    "LCAI_PORT"@
}

/// The fixed port handed to the backend.
pub open spec fn port_value() -> Seq<char> {
    "8787"@
}

/// Environment variable that carries the shared secret.
pub open spec fn secret_var() -> Seq<char> {
    "LCAI_JWT_SECRET"@
}

/// Development-only placeholder for the shared secret.
pub open spec fn secret_value() -> Seq<char> {
    "CHANGE_ME_DEV_ONLY"@
}

/// A filesystem path kept as its components, first the root it starts from.
pub struct BackendPath {
    pub components: Vec<String>,
}

impl View for BackendPath {
    type V = Seq<Seq<char>>;

    open spec fn view(&self) -> Seq<Seq<char>> {
        self.components@.map_values(|c: String| c@)
    }
}

impl BackendPath {
    /// A path made of the root alone.
    pub fn new(root: &str) -> (r: BackendPath)
        ensures
            r@ == seq![root@],
    {
        let mut components: Vec<String> = Vec::new();
        components.push(root.to_owned());
        let r = BackendPath { components };
        assert(r@ =~= seq![root@]);
        r
    }

    /// This path with one more component at its end.
    pub fn join(self, part: &str) -> (r: BackendPath)
        ensures
            r@ == self@.push(part@),
    {
        let ghost before = self@;
        let mut components = self.components;
        components.push(part.to_owned());
        let r = BackendPath { components };
        assert(r@ =~= before.push(part@));
        r
    }
}

/// Path of the backend executable under a resource directory:
/// `<resource_dir>/bin/lcai_api.exe`.
pub fn backend_exe_path(resource_dir: &str) -> (r: BackendPath)
    ensures
        r@ == seq![resource_dir@, bin_dir(), backend_exe_name()],
{
    proof {
        reveal_strlit("bin");
        reveal_strlit("lcai_api.exe");
    }
    let r = BackendPath::new(resource_dir).join("bin").join("lcai_api.exe");
    assert(r@ =~= seq![resource_dir@, bin_dir(), backend_exe_name()]);
    r
}

/// One variable of the backend's environment.
pub struct EnvVar {
    pub name: String,
    pub value: String,
}

/// The environment the backend is started with: its port, then its secret.
pub open spec fn launch_env() -> Seq<(Seq<char>, Seq<char>)> {
    seq![(port_var(), port_value()), (secret_var(), secret_value())]
}

/// Everything needed to start the backend process.
pub struct LaunchRequest {
    pub program: BackendPath,
    pub env: Vec<EnvVar>,
}

impl LaunchRequest {
    /// The environment as (name, value) pairs, in the order they are set.
    pub open spec fn env_view(&self) -> Seq<(Seq<char>, Seq<char>)> {
        self.env@.map_values(|v: EnvVar| (v.name@, v.value@))
    }
}

/// What to do about the backend at startup.
pub enum SpawnPlan {
    /// The executable is there: start it as described.
    Launch(LaunchRequest),
    /// The executable is missing at this path: report it and run without a
    /// backend.
    Missing(BackendPath),
}

/// Decides, from whether the executable exists, between starting it with the
/// fixed environment and going on without a backend.
pub fn spawn_backend(exe: BackendPath, exe_present: bool) -> (r: SpawnPlan)
    ensures
        exe_present <==> r is Launch,
        r matches SpawnPlan::Launch(req) ==> req.program@ == exe@ && req.env_view() == launch_env(),
        r matches SpawnPlan::Missing(p) ==> p@ == exe@,
{
    if !exe_present {
        return SpawnPlan::Missing(exe);
    }
    proof {
        reveal_strlit("LCAI_PORT");
        reveal_strlit("8787");
        reveal_strlit("LCAI_JWT_SECRET");
        reveal_strlit("CHANGE_ME_DEV_ONLY");
    }
    let mut env: Vec<EnvVar> = Vec::new();
    env.push(EnvVar { name: "LCAI_PORT".to_owned(), value: "8787".to_owned() });
    env.push(EnvVar { name: "LCAI_JWT_SECRET".to_owned(), value: "CHANGE_ME_DEV_ONLY".to_owned() });
    let req = LaunchRequest { program: exe, env };
    assert(req.env_view() =~= launch_env());
    SpawnPlan::Launch(req)
}

/// The line reported when the executable is missing, given the path as it is
/// displayed.
pub fn missing_backend_message(shown_path: &str) -> (r: String)
    ensures
        r@ == "Backend exe not found at: "@ + shown_path@,
{
    let mut r = "Backend exe not found at: ".to_owned();
    r.append(shown_path);
    r
}

} // verus!
