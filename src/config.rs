//! The scenario's configuration, resolved once from textual parameters.

use vstd::prelude::*;

verus! {

/// Which side of the two-node scenario this node plays.
#[derive(Debug, Clone, Copy, PartialEq, Eq, Structural)]
pub enum Role {
    /// Binds an address, publishes it and waits for the dialer.
    Listener,
    /// Reads the listener's address and dials it.
    Dialer,
}

/// A parameter of the scenario.
#[derive(Debug, Clone, Copy, PartialEq, Eq, Structural)]
pub enum Param {
    Role,
    TargetConnections,
    TargetPings,
    CoordinationEndpoint,
    ListenAddress,
    TimeoutSeconds,
}

/// A parameter that is absent or cannot be read.
#[derive(Debug, Clone, Copy, PartialEq, Eq, Structural)]
pub enum ConfigError {
    Missing(Param),
    Malformed(Param),
}

/// The resolved configuration of a run.
#[derive(Debug)]
pub struct ScenarioConfig {
    pub role: Role,
    pub target_connections: usize,
    pub target_pings: usize,
    pub coordination_endpoint: String,
    /// The address to listen on; empty for a dialer, which does not read it.
    pub listen_address: String,
    pub timeout_seconds: u64,
}

pub open spec fn is_digit(c: char) -> bool {
    '0' <= c && c <= '9'
}

/// The value of a text of decimal digits.
pub open spec fn decimal_value(s: Seq<char>) -> nat
    decreases s.len(),
{
    if s.len() == 0 {
        0
    } else {
        decimal_value(s.drop_last()) * 10 + ((s.last() as u32 - '0' as u32) as nat)
    }
}

/// Whether `s` is a non-empty run of decimal digits.
pub open spec fn is_decimal(s: Seq<char>) -> bool {
    s.len() > 0 && forall|i: int| 0 <= i < s.len() ==> is_digit(#[trigger] s[i])
}

/// The positive number written by `s`, if `s` is one that fits in `bound`.
pub open spec fn positive_number(s: Seq<char>, bound: nat) -> Option<nat> {
    if is_decimal(s) && 1 <= decimal_value(s) <= bound {
        Some(decimal_value(s))
    } else {
        None
    }
}

proof fn lemma_prefix_value_bounded(s: Seq<char>, i: int)
    requires
        is_decimal(s),
        0 <= i <= s.len(),
    ensures
        decimal_value(s.take(i)) <= decimal_value(s),
    decreases s.len(),
{
    if i < s.len() {
        let p = s.drop_last();
        assert(p.take(i) =~= s.take(i));
        if p.len() > 0 {
            assert forall|k: int| 0 <= k < p.len() implies is_digit(#[trigger] p[k]) by {
                assert(p[k] == s[k]);
            }
            lemma_prefix_value_bounded(p, i);
        } else {
            assert(s.take(i) =~= Seq::<char>::empty());
        }
    } else {
        assert(s.take(i) =~= s);
    }
}

/// Reads the positive decimal number written by `text`, if it is at most `bound`.
pub fn parse_positive(text: &str, bound: u64) -> (r: Option<u64>)
    ensures
        r is Some <==> positive_number(text@, bound as nat) is Some,
        r matches Some(v) ==> Some(v as nat) == positive_number(text@, bound as nat),
{
    let n = text.unicode_len();
    if n == 0 {
        return None;
    }
    let mut i: usize = 0;
    while i < n
        invariant
            n == text@.len(),
            0 <= i <= n,
            forall|k: int| 0 <= k < i ==> is_digit(#[trigger] text@[k]),
        decreases n - i,
    {
        let c = text.get_char(i);
        if !('0' <= c && c <= '9') {
            return None;
        }
        i = i + 1;
    }
    assert(is_decimal(text@));
    let mut value: u64 = 0;
    let mut j: usize = 0;
    while j < n
        invariant
            n == text@.len(),
            is_decimal(text@),
            0 <= j <= n,
            value as nat == decimal_value(text@.take(j as int)),
            value <= bound,
        decreases n - j,
    {
        let c = text.get_char(j);
        let d = (c as u32 - '0' as u32) as u64;
        assert(text@.take(j + 1).drop_last() =~= text@.take(j as int));
        if d > bound || value > (bound - d) / 10 {
            proof {
                assert(value * 10 + d > bound) by (nonlinear_arith)
                    requires
                        d > bound || value > (bound - d) / 10,
                        d <= bound ==> (bound - d) / 10 * 10 <= bound - d,
                ;
                lemma_prefix_value_bounded(text@, j + 1);
            }
            return None;
        }
        assert(value * 10 + d <= bound) by (nonlinear_arith)
            requires
                d <= bound,
                value <= (bound - d) / 10,
        ;
        value = value * 10 + d;
        j = j + 1;
    }
    assert(text@.take(n as int) =~= text@);
    if value == 0 {
        None
    } else {
        Some(value)
    }
}

/// Whether two texts are the same.
pub fn text_is(text: &str, word: &str) -> (r: bool)
    ensures
        r == (text@ == word@),
{
    let n = text.unicode_len();
    if n != word.unicode_len() {
        return false;
    }
    let mut i: usize = 0;
    while i < n
        invariant
            n == text@.len(),
            n == word@.len(),
            0 <= i <= n,
            forall|k: int| 0 <= k < i ==> text@[k] == word@[k],
        decreases n - i,
    {
        if text.get_char(i) != word.get_char(i) {
            return false;
        }
        i = i + 1;
    }
    assert(text@ =~= word@);
    true
}

/// The text of a parameter, if given.
pub open spec fn given(p: Option<String>) -> Option<Seq<char>> {
    match p {
        Some(s) => Some(s@),
        None => None,
    }
}

/// The role a text names.
pub open spec fn role_named(s: Seq<char>) -> Option<Role> {
    if s == "listener"@ {
        Some(Role::Listener)
    } else if s == "dialer"@ {
        Some(Role::Dialer)
    } else {
        None
    }
}

/// What is wrong with a numeric parameter, if anything.
pub open spec fn number_error(p: Param, t: Option<Seq<char>>, bound: nat) -> Option<ConfigError> {
    match t {
        None => Some(ConfigError::Missing(p)),
        Some(s) => if positive_number(s, bound) is Some {
            None
        } else {
            Some(ConfigError::Malformed(p))
        },
    }
}

/// The first problem among the parameters, taken in the order role, target
/// connections, target pings, coordination endpoint, listen address (for a
/// listener only), timeout.
pub open spec fn config_error(
    role: Option<Seq<char>>,
    target_connections: Option<Seq<char>>,
    target_pings: Option<Seq<char>>,
    coordination_endpoint: Option<Seq<char>>,
    listen_address: Option<Seq<char>>,
    timeout_seconds: Option<Seq<char>>,
) -> Option<ConfigError> {
    if role is None {
        Some(ConfigError::Missing(Param::Role))
    } else if role_named(role->0) is None {
        Some(ConfigError::Malformed(Param::Role))
    } else if number_error(Param::TargetConnections, target_connections, usize::MAX as nat) is Some {
        number_error(Param::TargetConnections, target_connections, usize::MAX as nat)
    } else if number_error(Param::TargetPings, target_pings, usize::MAX as nat) is Some {
        number_error(Param::TargetPings, target_pings, usize::MAX as nat)
    } else if coordination_endpoint is None {
        Some(ConfigError::Missing(Param::CoordinationEndpoint))
    } else if coordination_endpoint->0.len() == 0 {
        Some(ConfigError::Malformed(Param::CoordinationEndpoint))
    } else if role_named(role->0) == Some(Role::Listener) && listen_address is None {
        Some(ConfigError::Missing(Param::ListenAddress))
    } else {
        number_error(Param::TimeoutSeconds, timeout_seconds, u64::MAX as nat)
    }
}

fn read_number(p: Param, text: Option<String>, bound: u64) -> (r: Result<u64, ConfigError>)
    ensures
        r is Err <==> number_error(p, given(text), bound as nat) is Some,
        r matches Err(e) ==> number_error(p, given(text), bound as nat) == Some(e),
        r matches Ok(v) ==> Some(v as nat) == positive_number(given(text)->0, bound as nat),
{
    match text {
        None => Err(ConfigError::Missing(p)),
        Some(s) => match parse_positive(s.as_str(), bound) {
            Some(v) => Ok(v),
            None => Err(ConfigError::Malformed(p)),
        },
    }
}

impl ScenarioConfig {
    /// Resolves the configuration from the parameters as given, each absent
    /// or as text. The role is `listener` or `dialer`; the counts and the
    /// timeout are positive decimal numbers; the coordination endpoint is not
    /// empty; a listener needs a listen address.
    pub fn resolve(
        role: Option<String>,
        target_connections: Option<String>,
        target_pings: Option<String>,
        coordination_endpoint: Option<String>,
        listen_address: Option<String>,
        timeout_seconds: Option<String>,
    ) -> (r: Result<ScenarioConfig, ConfigError>)
        ensures
            ({
                let err = config_error(
                    given(role),
                    given(target_connections),
                    given(target_pings),
                    given(coordination_endpoint),
                    given(listen_address),
                    given(timeout_seconds),
                );
                &&& r is Err <==> err is Some
                &&& r matches Err(e) ==> err == Some(e)
            }),
            r matches Ok(c) ==> {
                &&& Some(c.role) == role_named(given(role)->0)
                &&& Some(c.target_connections as nat) == positive_number(
                    given(target_connections)->0,
                    usize::MAX as nat,
                )
                &&& Some(c.target_pings as nat) == positive_number(
                    given(target_pings)->0,
                    usize::MAX as nat,
                )
                &&& c.coordination_endpoint@ == given(coordination_endpoint)->0
                &&& c.role == Role::Listener ==> c.listen_address@ == given(listen_address)->0
                &&& c.role == Role::Dialer ==> c.listen_address@.len() == 0
                &&& Some(c.timeout_seconds as nat) == positive_number(
                    given(timeout_seconds)->0,
                    u64::MAX as nat,
                )
            },
    {
        let role = match role {
            None => return Err(ConfigError::Missing(Param::Role)),
            Some(s) => if text_is(s.as_str(), "listener") {
                Role::Listener
            } else if text_is(s.as_str(), "dialer") {
                Role::Dialer
            } else {
                return Err(ConfigError::Malformed(Param::Role));
            },
        };
        let target_connections = read_number(Param::TargetConnections, target_connections, usize::MAX as u64)?;
        let target_pings = read_number(Param::TargetPings, target_pings, usize::MAX as u64)?;
        let coordination_endpoint = match coordination_endpoint {
            None => return Err(ConfigError::Missing(Param::CoordinationEndpoint)),
            Some(s) => if s.as_str().unicode_len() == 0 {
                return Err(ConfigError::Malformed(Param::CoordinationEndpoint));
            } else {
                s
            },
        };
        let listen_address = match role {
            Role::Listener => match listen_address {
                None => return Err(ConfigError::Missing(Param::ListenAddress)),
                Some(s) => s,
            },
            Role::Dialer => String::new(),
        };
        let timeout_seconds = read_number(Param::TimeoutSeconds, timeout_seconds, u64::MAX)?;
        Ok(ScenarioConfig {
            role,
            target_connections: target_connections as usize,
            target_pings: target_pings as usize,
            coordination_endpoint,
            listen_address,
            timeout_seconds,
        })
    }
}

} // verus!
