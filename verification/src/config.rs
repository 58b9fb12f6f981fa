//! Database connection parameters.
//!
//! The parameters come from the process environment; resolving them can
//! fail, and a missing parameter is fatal before anything else runs.  The
//! environment is read outside; this module decides whether what was found
//! resolves to a configuration, and parses the port number.

use vstd::prelude::*;

verus! {

/// The resolved database connection parameters.  Immutable once loaded:
/// nothing here mutates them.
#[derive(Debug)]
pub struct DatabaseConfig {
    pub host: String,
    pub port: u16,
    pub user: String,
    pub password: String,
    pub name: String,
}

/// A database connection parameter, for naming what failed to resolve.
#[derive(PartialEq, Eq, Structural, Clone, Copy, Debug)]
pub enum ConfigParam {
    Host,
    Port,
    User,
    Password,
    Name,
}

/// Unresolvable database parameters: fatal, nothing runs without them.
#[derive(PartialEq, Eq, Structural, Clone, Copy, Debug)]
pub enum ConfigError {
    Missing(ConfigParam),
}

impl DatabaseConfig {
    /// Resolves a configuration from what the environment offered.
    /// Succeeds exactly when every parameter is present; otherwise names
    /// the first missing one, in the order host, port, user, password,
    /// database name.
    pub fn resolve(
        host: Option<String>,
        port: Option<u16>,
        user: Option<String>,
        password: Option<String>,
        name: Option<String>,
    ) -> (r: Result<DatabaseConfig, ConfigError>)
        ensures
            r is Ok <==> (host is Some && port is Some && user is Some && password is Some
                && name is Some),
            r is Ok ==> ({
                let c = r->Ok_0;
                &&& c.host == host->0
                &&& c.port == port->0
                &&& c.user == user->0
                &&& c.password == password->0
                &&& c.name == name->0
            }),
            host is None ==> r == Result::<DatabaseConfig, ConfigError>::Err(
                ConfigError::Missing(ConfigParam::Host),
            ),
            host is Some && port is None ==> r == Result::<DatabaseConfig, ConfigError>::Err(
                ConfigError::Missing(ConfigParam::Port),
            ),
            host is Some && port is Some && user is None ==> r == Result::<
                DatabaseConfig,
                ConfigError,
            >::Err(ConfigError::Missing(ConfigParam::User)),
            host is Some && port is Some && user is Some && password is None ==> r == Result::<
                DatabaseConfig,
                ConfigError,
            >::Err(ConfigError::Missing(ConfigParam::Password)),
            host is Some && port is Some && user is Some && password is Some && name is None ==> r
                == Result::<DatabaseConfig, ConfigError>::Err(
                ConfigError::Missing(ConfigParam::Name),
            ),
    {
        let host = match host {
            Some(h) => h,
            None => {
                return Err(ConfigError::Missing(ConfigParam::Host));
            },
        };
        let port = match port {
            Some(p) => p,
            None => {
                return Err(ConfigError::Missing(ConfigParam::Port));
            },
        };
        let user = match user {
            Some(u) => u,
            None => {
                return Err(ConfigError::Missing(ConfigParam::User));
            },
        };
        let password = match password {
            Some(p) => p,
            None => {
                return Err(ConfigError::Missing(ConfigParam::Password));
            },
        };
        let name = match name {
            Some(n) => n,
            None => {
                return Err(ConfigError::Missing(ConfigParam::Name));
            },
        };
        Ok(DatabaseConfig { host, port, user, password, name })
    }
}

/// An ASCII decimal digit.
pub open spec fn is_digit(b: u8) -> bool {
    48 <= b <= 57
}

/// The number the digit string denotes, most significant digit first.
pub open spec fn digits_value(s: Seq<u8>) -> int
    decreases s.len(),
{
    if s.len() == 0 {
        0
    } else {
        digits_value(s.drop_last()) * 10 + (s.last() - 48)
    }
}

/// With every byte a digit, the denoted value never shrinks as the string
/// grows to the right.
proof fn lemma_digits_value_grows(s: Seq<u8>, i: int)
    requires
        forall|k: int| 0 <= k < s.len() ==> is_digit(#[trigger] s[k]),
        0 <= i <= s.len(),
    ensures
        digits_value(s) >= digits_value(s.subrange(0, i)),
        digits_value(s.subrange(0, i)) >= 0,
    decreases s.len() - i,
{
    if i == s.len() {
        assert(s.subrange(0, i) =~= s);
        lemma_digits_value_nonneg(s);
    } else {
        lemma_digits_value_grows(s, i + 1);
        let shorter = s.subrange(0, i);
        let longer = s.subrange(0, i + 1);
        assert(longer.drop_last() =~= shorter);
        assert(is_digit(longer.last()));
        lemma_digits_value_nonneg(shorter);
    }
}

/// A digit string denotes a non-negative number.
proof fn lemma_digits_value_nonneg(s: Seq<u8>)
    requires
        forall|k: int| 0 <= k < s.len() ==> is_digit(#[trigger] s[k]),
    ensures
        digits_value(s) >= 0,
    decreases s.len(),
{
    if s.len() > 0 {
        assert(forall|k: int| 0 <= k < s.drop_last().len() ==> is_digit(#[trigger] s.drop_last()[k]));
        lemma_digits_value_nonneg(s.drop_last());
    }
}

/// Parses an ASCII decimal port number.  Accepts exactly the non-empty
/// all-digit strings whose value fits a port; returns that value.
pub fn parse_port(s: &Vec<u8>) -> (r: Option<u16>)
    ensures
        r is Some <==> (s@.len() > 0 && (forall|k: int| 0 <= k < s@.len() ==> is_digit(
            #[trigger] s@[k],
        )) && digits_value(s@) <= u16::MAX),
        r is Some ==> r->0 == digits_value(s@),
{
    if s.len() == 0 {
        return None;
    }
    let mut acc: u32 = 0;
    let mut i: usize = 0;
    proof {
        assert(s@.subrange(0, 0) =~= Seq::<u8>::empty());
    }
    while i < s.len()
        invariant
            0 <= i <= s@.len(),
            forall|k: int| 0 <= k < i ==> is_digit(#[trigger] s@[k]),
            acc == digits_value(s@.subrange(0, i as int)),
            acc <= u16::MAX,
        decreases s@.len() - i,
    {
        let b = s[i];
        if b < 48 || b > 57 {
            return None;
        }
        let ghost prefix = s@.subrange(0, i as int);
        let ghost longer = s@.subrange(0, i + 1);
        proof {
            assert(longer.drop_last() =~= prefix);
            assert(longer.last() == s@[i as int]);
        }
        let next: u32 = acc * 10 + ((b - 48) as u32);
        if next > 65535 {
            proof {
                if forall|k: int| 0 <= k < s@.len() ==> is_digit(#[trigger] s@[k]) {
                    lemma_digits_value_grows(s@, i + 1);
                }
            }
            return None;
        }
        acc = next;
        i += 1;
    }
    proof {
        assert(s@.subrange(0, s@.len() as int) =~= s@);
    }
    Some(acc as u16)
}

} // verus!
