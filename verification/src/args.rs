//! The configuration of the proxy, fixed when it starts.

use vstd::prelude::*;

verus! {

/// What the proxy is told when it starts.
#[derive(Clone, Debug)]
pub struct Args {
    /// Interface and port to bind.
    pub bind: Option<String>,
    /// Port to bind on all interfaces, in place of `bind`.
    pub port: Option<u16>,
    /// The candidate hosts, as connection strings. The order is the order of
    /// preference.
    pub hosts: Vec<String>,
    /// The executable that says whether a host may be the primary. It gets
    /// the host's connection string as its only argument and accepts the
    /// host by exiting with status zero. Without it, every host that accepts
    /// connections may be the primary.
    pub check_host: Option<String>,
    /// The executable, or the directory of executables, to run when a new
    /// primary has been found, each with the new primary's connection string
    /// as its only argument.
    pub on_failover: Option<String>,
    /// The longest delay, in seconds, between two passes over the hosts; one
    /// second at least.
    pub max_backoff: u64,
}

/// The decimal digit `d`, for `d` below ten.
pub open spec fn digit(d: nat) -> char {
    if d == 0 {
        '0'
    } else if d == 1 {
        '1'
    } else if d == 2 {
        '2'
    } else if d == 3 {
        '3'
    } else if d == 4 {
        '4'
    } else if d == 5 {
        '5'
    } else if d == 6 {
        '6'
    } else if d == 7 {
        '7'
    } else if d == 8 {
        '8'
    } else {
        '9'
    }
}

/// The number `n` in decimal, without sign or leading zeros.
pub open spec fn decimal(n: nat) -> Seq<char>
    decreases n,
{
    if n < 10 {
        seq![digit(n)]
    } else {
        decimal(n / 10).push(digit(n % 10))
    }
}

/// The address that stands for `port` on all interfaces: `[::]:` and the
/// port in decimal.
pub open spec fn any_interface(port: u16) -> Seq<char> {
    seq!['[', ':', ':', ']', ':'] + decimal(port as nat)
}

/// `format!` with `[::]:{}` and a `u16`: the five characters `[::]:`, then
/// the number as `Display` prints it, in decimal without sign or leading
/// zeros.
#[verifier::external_body]
fn format_any_interface(port: u16) -> (text: String)
    ensures
        text@ == any_interface(port),
{
    format!("[::]:{}", port)
}

impl Args {
    /// The candidate hosts, each as the characters of its connection string.
    pub open spec fn host_names(self) -> Seq<Seq<char>> {
        Seq::new(self.hosts@.len(), |i: int| self.hosts@[i]@)
    }

    /// The address to bind, as contracts see it: the port on all interfaces
    /// where a port is given, else the address given.
    pub open spec fn spec_bind_address(self) -> Seq<char> {
        match self.port {
            Some(port) => any_interface(port),
            None => match self.bind {
                Some(address) => address@,
                None => Seq::empty(),
            },
        }
    }

    /// The configuration names its bind target in exactly one of the two
    /// forms, names at least one host, and caps the delay at one second or
    /// more: the first delay is one second, and no delay is over the cap.
    pub open spec fn spec_is_valid(self) -> bool {
        &&& self.bind is Some != self.port is Some
        &&& self.hosts@.len() > 0
        &&& self.max_backoff >= 1
    }

    /// Whether the bind target is given in exactly one of its two forms, at
    /// least one host is named, and the cap on the delay is one second or
    /// more.
    pub fn is_valid(&self) -> (valid: bool)
        ensures
            valid == self.spec_is_valid(),
    {
        self.bind.is_some() != self.port.is_some() && self.hosts.len() > 0 && self.max_backoff
            >= 1
    }

    /// The address to listen on.
    pub fn bind_address(&self) -> (address: String)
        requires
            self.bind is Some || self.port is Some,
        ensures
            address@ == self.spec_bind_address(),
    {
        match self.port {
            Some(port) => format_any_interface(port),
            None => match &self.bind {
                Some(address) => address.clone(),
                None => String::new(),
            },
        }
    }
}

} // verus!
