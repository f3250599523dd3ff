//! The immutable configuration record and exact endpoint formatting.
//!
//! A network endpoint is rendered as `host:port`, with the port written in
//! decimal without leading zeros. The rendering is specified by
//! [`endpoint`] and proved exact for every host string and every port.

use vstd::prelude::*;
use vstd::string::StringExecFns;

verus! {

/// The character for a single decimal digit value.
pub open spec fn digit_char(d: nat) -> char
    recommends
        d < 10,
{
    if d == 0 {
        '0'
    } else if d == 1 {
        '1'
    } else if d == 2 {
        '2'
    } else if d == 3 {
        '3'
    } else if d == 4 {
        '4'
    } else if d == 5 {
        '5'
    } else if d == 6 {
        '6'
    } else if d == 7 {
        '7'
    } else if d == 8 {
        '8'
    } else {
        '9'
    }
}

/// The decimal rendering of `n`, most significant digit first, with no
/// leading zeros (`0` itself is rendered as `"0"`).
pub open spec fn dec_digits(n: nat) -> Seq<char>
    decreases n,
{
    if n < 10 {
        seq![digit_char(n)]
    } else {
        dec_digits(n / 10).push(digit_char(n % 10))
    }
}

/// The combined `host:port` form of one endpoint pair.
pub open spec fn endpoint(host: Seq<char>, port: u16) -> Seq<char> {
    host + seq![':'] + dec_digits(port as nat)
}

/// A one-character string for a single decimal digit value.
fn digit_str(d: u16) -> (s: &'static str)
    requires
        d < 10,
    ensures
        s@ == seq![digit_char(d as nat)],
{
    let s: &'static str = match d {
        0 => "0",
        1 => "1",
        2 => "2",
        3 => "3",
        4 => "4",
        5 => "5",
        6 => "6",
        7 => "7",
        8 => "8",
        _ => "9",
    };
    proof {
        reveal_strlit("0");
        reveal_strlit("1");
        reveal_strlit("2");
        reveal_strlit("3");
        reveal_strlit("4");
        reveal_strlit("5");
        reveal_strlit("6");
        reveal_strlit("7");
        reveal_strlit("8");
        reveal_strlit("9");
        assert(s@ =~= seq![digit_char(d as nat)]);
    }
    s
}

/// Appends the decimal rendering of `n` to `s`.
fn push_decimal(s: &mut String, n: u16)
    ensures
        final(s)@ == old(s)@ + dec_digits(n as nat),
    decreases n,
{
    if n >= 10 {
        proof {
            assert(n / 10 < n) by (nonlinear_arith)
                requires
                    n >= 10,
            ;
        }
        push_decimal(s, n / 10);
    }
    let d = digit_str(n % 10);
    s.append(d);
    proof {
        if n < 10 {
            assert(s@ =~= old(s)@ + dec_digits(n as nat));
        } else {
            assert(dec_digits(n as nat) =~= dec_digits(n as nat / 10) + seq![
                digit_char(n as nat % 10),
            ]);
            assert(s@ =~= old(s)@ + dec_digits(n as nat));
        }
    }
}

/// Renders one endpoint pair as `host:port`.
pub fn format_endpoint(host: &str, port: u16) -> (s: String)
    ensures
        s@ == endpoint(host@, port),
{
    let mut s = host.to_owned();
    s.append(":");
    proof {
        reveal_strlit(":");
        assert(":"@ =~= seq![':']);
    }
    push_decimal(&mut s, port);
    proof {
        assert(s@ =~= endpoint(host@, port));
    }
    s
}

/// The immutable record the daemon is started with: the SSH endpoint and
/// credentials, the two forwarding endpoints, the timing parameters, and
/// the status surface's bind address. Loaded once at startup and shared
/// read-only for the lifetime of the process.
#[derive(Clone, Debug)]
pub struct Config {
    pub ssh_host: String,
    pub ssh_port: u16,
    pub ssh_username: String,
    pub ssh_private_key_path: String,
    pub ssh_passphrase: Option<String>,
    pub local_host: String,
    pub local_port: u16,
    pub remote_host: String,
    pub remote_port: u16,
    pub health_check_interval: u64,
    pub reconnect_delay: u64,
    pub log_level: String,
    pub web_interface: String,
    pub web_port: u16,
}

impl Config {
    /// The `host:port` form of the SSH endpoint.
    pub fn get_ssh_url(&self) -> (s: String)
        ensures
            s@ == endpoint(self.ssh_host@, self.ssh_port),
    {
        format_endpoint(self.ssh_host.as_str(), self.ssh_port)
    }

    /// The `host:port` form of the local forwarding target.
    pub fn get_local_bind(&self) -> (s: String)
        ensures
            s@ == endpoint(self.local_host@, self.local_port),
    {
        format_endpoint(self.local_host.as_str(), self.local_port)
    }

    /// The `host:port` form of the remote listening endpoint.
    pub fn get_remote_bind(&self) -> (s: String)
        ensures
            s@ == endpoint(self.remote_host@, self.remote_port),
    {
        format_endpoint(self.remote_host.as_str(), self.remote_port)
    }

    /// The `host:port` form of the status surface's bind address.
    pub fn get_web_bind(&self) -> (s: String)
        ensures
            s@ == endpoint(self.web_interface@, self.web_port),
    {
        format_endpoint(self.web_interface.as_str(), self.web_port)
    }

    /// The passphrase supplied during public-key authentication: the
    /// configured one exactly when it is present and non-empty, nothing
    /// otherwise. Public-key authentication is the only strategy.
    pub open spec fn passphrase_in_use(self) -> Option<Seq<char>> {
        match self.ssh_passphrase {
            Some(p) => if p@.len() > 0 {
                Some(p@)
            } else {
                None
            },
            None => None,
        }
    }

    /// The passphrase to hand to public-key authentication, if any.
    pub fn effective_passphrase(&self) -> (r: Option<&str>)
        ensures
            match r {
                Some(s) => self.passphrase_in_use() == Some(s@),
                None => self.passphrase_in_use() is None,
            },
    {
        match &self.ssh_passphrase {
            Some(p) => if p.as_str().is_empty() {
                None
            } else {
                Some(p.as_str())
            },
            None => None,
        }
    }
}

} // verus!
