use vstd::prelude::*;

verus! {

/// Lowest port of the raw-socket executor's range.
pub const RAW_SOCKET_MIN_PORT: u16 = 5553;

/// Highest port of the raw-socket executor's range.
pub const RAW_SOCKET_MAX_PORT: u16 = 5562;

/// The single port of the HTTP executor.
pub const HTTP_PORT: u16 = 6969;

/// The protocol family of the executor process: it selects both the probe
/// and the port range.
#[derive(Debug, Clone, Copy, PartialEq, Eq, Structural)]
pub enum ExecutorKind {
    /// Answers `GET /secret` and accepts `POST /execute`.
    HttpExecutor,
    /// Accepts framed commands on a plain TCP socket.
    RawSocketExecutor,
}

impl ExecutorKind {
    /// Lowest port of this kind's closed range.
    pub open spec fn min_port_spec(self) -> u16 {
        match self {
            ExecutorKind::HttpExecutor => HTTP_PORT,
            ExecutorKind::RawSocketExecutor => RAW_SOCKET_MIN_PORT,
        }
    }

    /// Highest port of this kind's closed range.
    pub open spec fn max_port_spec(self) -> u16 {
        match self {
            ExecutorKind::HttpExecutor => HTTP_PORT,
            ExecutorKind::RawSocketExecutor => RAW_SOCKET_MAX_PORT,
        }
    }

    /// Whether `port` lies in this kind's closed range.
    pub open spec fn in_range(self, port: u16) -> bool {
        self.min_port_spec() <= port <= self.max_port_spec()
    }

    pub fn min_port(&self) -> (r: u16)
        ensures
            r == self.min_port_spec(),
    {
        match self {
            ExecutorKind::HttpExecutor => HTTP_PORT,
            ExecutorKind::RawSocketExecutor => RAW_SOCKET_MIN_PORT,
        }
    }

    pub fn max_port(&self) -> (r: u16)
        ensures
            r == self.max_port_spec(),
    {
        match self {
            ExecutorKind::HttpExecutor => HTTP_PORT,
            ExecutorKind::RawSocketExecutor => RAW_SOCKET_MAX_PORT,
        }
    }

    pub fn contains_port(&self, port: u16) -> (r: bool)
        ensures
            r == self.in_range(port),
    {
        self.min_port() <= port && port <= self.max_port()
    }
}

/// Picks the executor kind from which installation markers are present on
/// disk: the raw-socket executor only when its marker alone is found.
pub fn detect_executor(has_http_marker: bool, has_raw_socket_marker: bool) -> (r: ExecutorKind)
    ensures
        r == (if has_raw_socket_marker && !has_http_marker {
            ExecutorKind::RawSocketExecutor
        } else {
            ExecutorKind::HttpExecutor
        }),
{
    match (has_http_marker, has_raw_socket_marker) {
        (true, false) => ExecutorKind::HttpExecutor,
        (false, true) => ExecutorKind::RawSocketExecutor,
        (true, true) => ExecutorKind::HttpExecutor,
        (false, false) => ExecutorKind::HttpExecutor,
    }
}

} // verus!
