//! Requests to the compositor's command socket: where the socket lies, what is
//! written to it, and the shape of what comes back.

use vstd::prelude::*;
use vstd::string::*;

verus! {

/// A request for a snapshot of the compositor's state.
pub trait Command: Sized {
    /// What the compositor answers, once decoded.
    type Response;

    /// The name of the request.
    const NAME: &'static str;
}

/// The client of the command socket.
pub struct Executor;

/// A workspace of the compositor.
#[derive(Clone, Debug, PartialEq, Eq)]
pub struct Workspace {
    pub id: u32,
    pub name: String,
    pub windows: usize,
}

/// A window of the compositor.
#[derive(Clone, Debug, PartialEq, Eq)]
pub struct Client {
    pub class: String,
    pub title: String,
}

/// All workspaces.
pub struct Workspaces;

/// All windows.
pub struct Clients;

/// The focused window.
pub struct ActiveWindow;

/// The active workspace.
pub struct ActiveWorkspace;

impl Command for Workspaces {
    type Response = Vec<Workspace>;

    const NAME: &'static str = "workspaces";
}

impl Command for Clients {
    type Response = Vec<Client>;

    const NAME: &'static str = "clients";
}

impl Command for ActiveWindow {
    type Response = Client;

    const NAME: &'static str = "activewindow";
}

impl Command for ActiveWorkspace {
    type Response = Workspace;

    const NAME: &'static str = "activeworkspace";
}

/// The path of a socket of the compositor instance `instance`, under the
/// runtime directory `runtime_dir`.
pub open spec fn socket_path(runtime_dir: Seq<char>, instance: Seq<char>, file: Seq<char>) -> Seq<
    char,
> {
    runtime_dir + "/hypr/"@ + instance + "/"@ + file
}

/// Builds the path of a socket of the compositor.
pub fn socket_in(runtime_dir: &str, instance: &str, file: &str) -> (path: String)
    ensures
        path@ == socket_path(runtime_dir@, instance@, file@),
{
    runtime_dir.to_owned().concat("/hypr/").concat(instance).concat("/").concat(file)
}

impl Executor {
    /// The path of the command socket.
    pub fn socket(runtime_dir: &str, instance: &str) -> (path: String)
        ensures
            path@ == socket_path(runtime_dir@, instance@, ".socket.sock"@),
    {
        socket_in(runtime_dir, instance, ".socket.sock")
    }

    /// What is written to the command socket to ask for `C`: the request name
    /// behind the flag that asks for a JSON answer.
    pub fn request<C: Command>() -> (text: String)
        ensures
            text@ == "-j/"@ + C::NAME@,
    {
        "-j/".to_owned().concat(C::NAME)
    }
}

} // verus!
