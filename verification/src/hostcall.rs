//! Hostcall identities and the static routing table.
//!
//! Every hostcall entry point looks up the owning service of a call identity
//! before doing any work. The mapping is a static, total function over the
//! closed set of common calls; custom, string-named identities have no
//! resolution rule at this layer and must fail fast rather than be silently
//! misrouted.

use vstd::prelude::*;

use crate::IsolationID;
use crate::ServiceName;

verus! {

/// The closed set of common hostcall identities.
#[derive(Clone, Copy, Debug, PartialEq, Eq, Structural)]
pub enum CommonHostCall {
    Metric,
    FsImage,
    Write,
    Read,
    Open,
    Close,
    Connect,
    Socket,
    Bind,
    Accept,
    Stdout,
    FatfsOpen,
    FatfsWrite,
    FatfsRead,
    FatfsClose,
    SmoltcpAddrInfo,
    SmoltcpConnect,
    SmoltcpSend,
    SmoltcpRecv,
    SmoltcpBind,
    SmoltcpAccept,
    SmoltcpClose,
    BufferAlloc,
    AccessBuffer,
    BufferDealloc,
    GetTime,
}

/// A hostcall identity: a common call, or an open-ended call named by a
/// string (reserved for workload-defined services; no routing rule exists
/// for it here).
#[derive(Debug)]
pub enum HostCallID {
    Common(CommonHostCall),
    Custom(String),
}

/// The service that owns a common call. The two runtime-internal calls map
/// to the empty name.
pub open spec fn spec_service_of(c: CommonHostCall) -> Seq<char> {
    match c {
        CommonHostCall::Metric | CommonHostCall::FsImage => ""@,
        CommonHostCall::Write
        | CommonHostCall::Open
        | CommonHostCall::Read
        | CommonHostCall::Close
        | CommonHostCall::Connect
        | CommonHostCall::Socket
        | CommonHostCall::Bind
        | CommonHostCall::Accept => "fdtab"@,
        CommonHostCall::Stdout => "stdio"@,
        CommonHostCall::FatfsOpen
        | CommonHostCall::FatfsWrite
        | CommonHostCall::FatfsRead
        | CommonHostCall::FatfsClose => "fatfs"@,
        CommonHostCall::SmoltcpAddrInfo
        | CommonHostCall::SmoltcpConnect
        | CommonHostCall::SmoltcpSend
        | CommonHostCall::SmoltcpRecv
        | CommonHostCall::SmoltcpBind
        | CommonHostCall::SmoltcpAccept
        | CommonHostCall::SmoltcpClose => "socket"@,
        CommonHostCall::BufferAlloc
        | CommonHostCall::AccessBuffer
        | CommonHostCall::BufferDealloc => "buffer"@,
        CommonHostCall::GetTime => "time"@,
    }
}

/// The symbolic name a common call is logged and formatted under.
pub open spec fn spec_name_of(c: CommonHostCall) -> Seq<char> {
    match c {
        CommonHostCall::Metric => "metric"@,
        CommonHostCall::FsImage => "fs_image"@,
        CommonHostCall::Write => "write"@,
        CommonHostCall::Read => "read"@,
        CommonHostCall::Open => "open"@,
        CommonHostCall::Close => "close"@,
        CommonHostCall::Connect => "connect"@,
        CommonHostCall::Socket => "socket"@,
        CommonHostCall::Bind => "bind"@,
        CommonHostCall::Accept => "accept"@,
        CommonHostCall::Stdout => "host_stdout"@,
        CommonHostCall::FatfsOpen => "fatfs_open"@,
        CommonHostCall::FatfsWrite => "fatfs_write"@,
        CommonHostCall::FatfsRead => "fatfs_read"@,
        CommonHostCall::FatfsClose => "fatfs_close"@,
        CommonHostCall::SmoltcpAddrInfo => "addrinfo"@,
        CommonHostCall::SmoltcpConnect => "smol_connect"@,
        CommonHostCall::SmoltcpSend => "smol_send"@,
        CommonHostCall::SmoltcpRecv => "smol_recv"@,
        CommonHostCall::SmoltcpBind => "smol_bind"@,
        CommonHostCall::SmoltcpAccept => "smol_accept"@,
        CommonHostCall::SmoltcpClose => "smol_close"@,
        CommonHostCall::BufferAlloc => "buffer_alloc"@,
        CommonHostCall::AccessBuffer => "access_buffer"@,
        CommonHostCall::BufferDealloc => "buffer_dealloc"@,
        CommonHostCall::GetTime => "get_time"@,
    }
}

impl CommonHostCall {
    /// The symbolic name of this call, for logs and reports.
    pub fn name(&self) -> (r: String)
        ensures
            r@ == spec_name_of(*self),
    {
        match self {
            CommonHostCall::Metric => "metric".to_owned(),
            CommonHostCall::FsImage => "fs_image".to_owned(),
            CommonHostCall::Write => "write".to_owned(),
            CommonHostCall::Read => "read".to_owned(),
            CommonHostCall::Open => "open".to_owned(),
            CommonHostCall::Close => "close".to_owned(),
            CommonHostCall::Connect => "connect".to_owned(),
            CommonHostCall::Socket => "socket".to_owned(),
            CommonHostCall::Bind => "bind".to_owned(),
            CommonHostCall::Accept => "accept".to_owned(),
            CommonHostCall::Stdout => "host_stdout".to_owned(),
            CommonHostCall::FatfsOpen => "fatfs_open".to_owned(),
            CommonHostCall::FatfsWrite => "fatfs_write".to_owned(),
            CommonHostCall::FatfsRead => "fatfs_read".to_owned(),
            CommonHostCall::FatfsClose => "fatfs_close".to_owned(),
            CommonHostCall::SmoltcpAddrInfo => "addrinfo".to_owned(),
            CommonHostCall::SmoltcpConnect => "smol_connect".to_owned(),
            CommonHostCall::SmoltcpSend => "smol_send".to_owned(),
            CommonHostCall::SmoltcpRecv => "smol_recv".to_owned(),
            CommonHostCall::SmoltcpBind => "smol_bind".to_owned(),
            CommonHostCall::SmoltcpAccept => "smol_accept".to_owned(),
            CommonHostCall::SmoltcpClose => "smol_close".to_owned(),
            CommonHostCall::BufferAlloc => "buffer_alloc".to_owned(),
            CommonHostCall::AccessBuffer => "access_buffer".to_owned(),
            CommonHostCall::BufferDealloc => "buffer_dealloc".to_owned(),
            CommonHostCall::GetTime => "get_time".to_owned(),
        }
    }
}

impl HostCallID {
    /// The service that owns this call. Defined only for common calls: a
    /// custom identity has no routing rule, so a caller must go through
    /// [`HostCallID::route`] instead.
    pub fn belong_to(&self) -> (r: ServiceName)
        requires
            self is Common,
        ensures
            r@ == spec_service_of(self->Common_0),
    {
        match self {
            HostCallID::Common(common) => match common {
                CommonHostCall::Metric | CommonHostCall::FsImage => "".to_owned(),
                CommonHostCall::Write
                | CommonHostCall::Open
                | CommonHostCall::Read
                | CommonHostCall::Close
                | CommonHostCall::Connect
                | CommonHostCall::Socket
                | CommonHostCall::Bind
                | CommonHostCall::Accept => "fdtab".to_owned(),
                CommonHostCall::Stdout => "stdio".to_owned(),
                CommonHostCall::FatfsOpen
                | CommonHostCall::FatfsWrite
                | CommonHostCall::FatfsRead
                | CommonHostCall::FatfsClose => "fatfs".to_owned(),
                CommonHostCall::SmoltcpAddrInfo
                | CommonHostCall::SmoltcpConnect
                | CommonHostCall::SmoltcpSend
                | CommonHostCall::SmoltcpRecv
                | CommonHostCall::SmoltcpBind
                | CommonHostCall::SmoltcpAccept
                | CommonHostCall::SmoltcpClose => "socket".to_owned(),
                CommonHostCall::BufferAlloc
                | CommonHostCall::AccessBuffer
                | CommonHostCall::BufferDealloc => "buffer".to_owned(),
                CommonHostCall::GetTime => "time".to_owned(),
            },
            HostCallID::Custom(_) => "".to_owned(),
        }
    }

    /// Total routing: a common call resolves to its owning service, a custom
    /// identity fails fast with no service rather than being misrouted.
    pub fn route(&self) -> (r: Option<ServiceName>)
        ensures
            match r {
                Some(name) => self is Common && name@ == spec_service_of(self->Common_0),
                None => self is Custom,
            },
    {
        match self {
            HostCallID::Common(_) => Some(self.belong_to()),
            HostCallID::Custom(_) => None,
        }
    }
}

/// Routing totality: every common hostcall identity maps to exactly one
/// service name, which is empty exactly for the two runtime-internal calls
/// and is otherwise one of the five host services.
pub proof fn lemma_routing_totality(c: CommonHostCall)
    ensures
        (c is Metric || c is FsImage) <==> spec_service_of(c).len() == 0,
        spec_service_of(c) == ""@ || spec_service_of(c) == "fdtab"@ || spec_service_of(c)
            == "stdio"@ || spec_service_of(c) == "fatfs"@ || spec_service_of(c) == "socket"@
            || spec_service_of(c) == "buffer"@ || spec_service_of(c) == "time"@,
        (c is Metric || c is FsImage) <==> spec_service_of(c) == ""@,
{
    reveal_strlit("");
    reveal_strlit("fdtab");
    reveal_strlit("stdio");
    reveal_strlit("fatfs");
    reveal_strlit("socket");
    reveal_strlit("buffer");
    reveal_strlit("time");
}

/// A per-isolation record: the isolation's identity, the addresses of its
/// fault-lookup and panic handlers, and the `(start, end)` bounds of the heap
/// region it owns. Created once at isolation construction and read-only
/// thereafter.
pub struct IsolationContext {
    pub isol_id: IsolationID,
    pub find_handler: usize,
    pub panic_handler: usize,
    pub heap_range: (usize, usize),
}

impl Clone for IsolationContext {
    fn clone(&self) -> (r: Self)
        ensures
            r == *self,
    {
        IsolationContext {
            isol_id: self.isol_id,
            find_handler: self.find_handler,
            panic_handler: self.panic_handler,
            heap_range: (self.heap_range.0, self.heap_range.1),
        }
    }
}

impl Default for IsolationContext {
    /// The zero value used for bootstrap contexts.
    fn default() -> (r: IsolationContext)
        ensures
            r.isol_id == 0,
            r.find_handler == 0,
            r.panic_handler == 0,
            r.heap_range == (0usize, 0usize),
    {
        IsolationContext { isol_id: 0, find_handler: 0, panic_handler: 0, heap_range: (0, 0) }
    }
}

/// The size of the heap region handed to each service instance.
pub const SERVICE_HEAP_SIZE: u64 = 4 * 1024 * 1024 * 1024;

} // verus!
