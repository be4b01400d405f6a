//! Messages exchanged between a capture client and the surface compositor,
//! and the client's reading of the compositor's replies.
use vstd::prelude::*;
use crate::text::{decimal, push_decimal};

verus! {

/// A request sent to the surface compositor.
pub enum SurfaceComposerRequest {
    /// Announces a client process and the address its private channel listens on.
    NewConnection { pid: u32, url: String },
    /// Asks for a new shared surface at the given bounds.
    CreateSurfaceRequest { x: i32, y: i32, width: i32, height: i32 },
    /// Moves and resizes the client's surface.
    MoveSurfaceRequest { x: i32, y: i32, width: i32, height: i32 },
}

/// A reply of the surface compositor.
pub enum SurfaceComposerResponse {
    NewConnectionResponse,
    CreateSurfaceResponse { texture_name: String },
    MoveSurfaceResponse,
}

/// Why a client could not use a compositor reply.
#[derive(PartialEq, Eq, Structural, Debug, Clone, Copy)]
pub enum ComposerError {
    /// The compositor answered a surface creation with another kind of reply.
    UnknownResponse,
}

/// A surface that the compositor shares with a client by texture name.
pub struct Surface {
    pub shared_texture_name: String,
}

impl Surface {
    /// Wraps the shared texture name of a created surface.
    pub fn new(shared_texture_name: String) -> (res: Result<Surface, ComposerError>)
        ensures
            res matches Ok(s) && s.shared_texture_name@ == shared_texture_name@,
    {
        Ok(Surface { shared_texture_name })
    }
}

/// The text "ipc://pid/" followed by the decimal process id.
pub open spec fn connection_url_spec(pid: u32) -> Seq<char> {
    "ipc://pid/"@ + decimal(pid as nat)
}

/// The address of the private channel that a client with process id `pid` listens on.
pub fn connection_url(pid: u32) -> (url: String)
    ensures
        url@ == connection_url_spec(pid),
{
    let mut url = String::new();
    url.append("ipc://pid/");
    push_decimal(&mut url, pid as u64);
    url
}

/// The greeting a client sends when it opens its private channel.
pub fn new_connection_request(pid: u32) -> (req: SurfaceComposerRequest)
    ensures
        req matches SurfaceComposerRequest::NewConnection { pid: p, url } && p == pid
            && url@ == connection_url_spec(pid),
{
    SurfaceComposerRequest::NewConnection { pid, url: connection_url(pid) }
}

/// The request for a new surface at the given bounds.
pub fn create_surface_request(x: i32, y: i32, w: i32, h: i32) -> (req: SurfaceComposerRequest)
    ensures
        req == (SurfaceComposerRequest::CreateSurfaceRequest { x, y, width: w, height: h }),
{
    SurfaceComposerRequest::CreateSurfaceRequest { x, y, width: w, height: h }
}

/// The request that moves and resizes the client's surface.
pub fn move_surface_request(x: i32, y: i32, width: i32, height: i32) -> (req:
    SurfaceComposerRequest)
    ensures
        req == (SurfaceComposerRequest::MoveSurfaceRequest { x, y, width, height }),
{
    SurfaceComposerRequest::MoveSurfaceRequest { x, y, width, height }
}

/// Reads the compositor's reply to a surface creation: only a creation reply
/// yields a surface, carrying the texture name it announces.
pub fn surface_from_response(rep: SurfaceComposerResponse) -> (res: Result<Surface, ComposerError>)
    ensures
        match rep {
            SurfaceComposerResponse::CreateSurfaceResponse { texture_name } => res matches Ok(
                s,
            ) && s.shared_texture_name@ == texture_name@,
            _ => res == Err::<Surface, ComposerError>(ComposerError::UnknownResponse),
        },
{
    match rep {
        SurfaceComposerResponse::CreateSurfaceResponse { texture_name } => Surface::new(
            texture_name,
        ),
        _ => Err(ComposerError::UnknownResponse),
    }
}

} // verus!
