//! Argon2id password hashing with cost parameters taken from the
//! configuration, producing and checking PHC-format hash strings.

use vstd::prelude::*;
use vstd::string::*;
use argon2::{PasswordHasher, PasswordVerifier};
use crate::configuration::schema::Argon2Settings;
use crate::text::{chars_of, decimal, lemma_decimal_len, str_equal, ten_pow};

verus! {

#[verifier::external_type_specification]
#[verifier::external_body]
pub struct ExArgon2Params(argon2::Params);

#[verifier::external_type_specification]
#[verifier::external_body]
pub struct ExArgon2<'key>(argon2::Argon2<'key>);

#[verifier::external_type_specification]
#[verifier::external_body]
pub struct ExSaltString(argon2::password_hash::SaltString);

#[verifier::external_type_specification]
#[verifier::external_body]
pub struct ExPasswordHash<'a>(argon2::password_hash::PasswordHash<'a>);

/// The largest parallelism for which `argon2::Params::new` can compare the
/// memory cost against eight blocks per lane without overflowing.
pub const MAX_CHECKED_PARALLELISM: u32 = 0x1FFF_FFFF;

/// Why `argon2::Params::new` refuses costs, as its error displays it; `None`
/// when it accepts them.
pub open spec fn params_problem(m_cost: u32, t_cost: u32, p_cost: u32) -> Option<Seq<char>> {
    if m_cost < 8 || m_cost < 8 * p_cost {
        Some("memory cost is too small"@)
    } else if t_cost < 1 {
        Some("time cost is too small"@)
    } else if p_cost < 1 {
        Some("not enough threads"@)
    } else if p_cost > 0xFF_FFFF {
        Some("too many threads"@)
    } else {
        None
    }
}

/// Parameters that `argon2::Params::new` built, with the costs it was given.
/// Only `new_params` makes one, so the costs are those of `params`.
struct CheckedParams {
    params: argon2::Params,
    memory_cost: u32,
    time_cost: u32,
    parallelism: u32,
}

/// `argon2::Params::new(m_cost, t_cost, p_cost, None)`. Its source refuses a
/// memory cost under 8 blocks or under 8 per lane, a time cost of 0, and a
/// parallelism of 0 or above 2^24 - 1, in that order; the error is returned as
/// its displayed text. Accepted parameters come back with the costs that made
/// them.
#[verifier::external_body]
fn new_params(m_cost: u32, t_cost: u32, p_cost: u32) -> (r: Result<CheckedParams, String>)
    requires
        p_cost <= MAX_CHECKED_PARALLELISM,
    ensures
        match r {
            Ok(c) => params_problem(m_cost, t_cost, p_cost) is None && c.memory_cost == m_cost
                && c.time_cost == t_cost && c.parallelism == p_cost,
            Err(msg) => params_problem(m_cost, t_cost, p_cost) == Some(msg@),
        },
{
    argon2::Params::new(m_cost, t_cost, p_cost, None)
        .map(|params| CheckedParams { params, memory_cost: m_cost, time_cost: t_cost, parallelism: p_cost })
        .map_err(|e| e.to_string())
}

/// An Argon2id (version 0x13) hasher, with the costs of the parameters it
/// was built from. Only `argon2id` makes one.
struct Argon2idHasher {
    inner: argon2::Argon2<'static>,
    memory_cost: u32,
    time_cost: u32,
    parallelism: u32,
}

/// `argon2::Argon2::new` with the Argon2id algorithm, version 0x13 and the
/// checked parameters, whose costs it keeps.
#[verifier::external_body]
fn argon2id(checked: CheckedParams) -> (h: Argon2idHasher)
    ensures
        h.memory_cost == checked.memory_cost,
        h.time_cost == checked.time_cost,
        h.parallelism == checked.parallelism,
{
    Argon2idHasher {
        inner: argon2::Argon2::new(argon2::Algorithm::Argon2id, argon2::Version::V0x13, checked.params),
        memory_cost: checked.memory_cost,
        time_cost: checked.time_cost,
        parallelism: checked.parallelism,
    }
}

/// A salt that `SaltString::generate` made: sixteen random bytes, which
/// argon2 accepts (it asks for 8 to 2^32 - 1). Only `generate_salt` makes one.
struct GeneratedSalt {
    inner: argon2::password_hash::SaltString,
}

/// `SaltString::generate` from the operating system's random source; the
/// salt is random, so nothing is claimed of its bytes.
#[verifier::external_body]
fn generate_salt() -> GeneratedSalt {
    GeneratedSalt {
        inner: argon2::password_hash::SaltString::generate(&mut argon2::password_hash::rand_core::OsRng),
    }
}

/// Whether `PasswordHash::new` parses `hash` as a PHC string.
pub uninterp spec fn phc_parses(hash: Seq<char>) -> bool;

/// The `name=value` parameters that the PHC string `hash` carries, in order,
/// as `PasswordHash::new` parses them.
pub uninterp spec fn phc_params(hash: Seq<char>) -> Seq<(Seq<char>, Seq<char>)>;

/// Whether `PasswordVerifier::verify_password` of `argon2` accepts `password`
/// for the parsed PHC string `hash`.
pub uninterp spec fn phc_matches(hash: Seq<char>, password: Seq<char>) -> bool;

/// The parameter pairs as text.
pub open spec fn param_views(pairs: Seq<(String, String)>) -> Seq<(Seq<char>, Seq<char>)> {
    pairs.map_values(|p: (String, String)| (p.0@, p.1@))
}

/// The most digits a parallelism parameter of a stored hash may have for
/// the hash to be checked: eight digits stay below 10^8, so argon2's
/// eightfold of it cannot overflow a `u32`.
pub const MAX_PARALLELISM_DIGITS: usize = 8;

/// The value of the last parameter named `name`, if any.
pub open spec fn last_param(params: Seq<(Seq<char>, Seq<char>)>, name: Seq<char>) -> Option<Seq<char>>
    decreases params.len(),
{
    if params.len() == 0 {
        None
    } else if params.last().0 == name {
        Some(params.last().1)
    } else {
        last_param(params.drop_last(), name)
    }
}

/// The `p` parameter that argon2 uses, the last one, has at most
/// `MAX_PARALLELISM_DIGITS` characters.
pub open spec fn parallelism_fits(params: Seq<(Seq<char>, Seq<char>)>) -> bool {
    match last_param(params, "p"@) {
        Some(v) => v.len() <= MAX_PARALLELISM_DIGITS,
        None => true,
    }
}

/// The parameters of an Argon2 PHC string with these costs.
pub open spec fn cost_params(memory_cost: u32, time_cost: u32, parallelism: u32) -> Seq<(Seq<char>, Seq<char>)> {
    seq![
        ("m"@, decimal(memory_cost as nat)),
        ("t"@, decimal(time_cost as nat)),
        ("p"@, decimal(parallelism as nat)),
    ]
}

/// The longest password, in bytes, that argon2 hashes (`argon2::MAX_PWD_LEN`).
pub const MAX_PASSWORD_BYTES: u64 = 0xFFFF_FFFF;

/// How an Argon2id, version 19, PHC string with these costs begins: the
/// algorithm, the version and the parameters, each after a `$`, then the `$`
/// before the salt.
pub open spec fn phc_head(memory_cost: u32, time_cost: u32, parallelism: u32) -> Seq<char> {
    "$argon2id$v=19$m="@ + decimal(memory_cost as nat) + ",t="@ + decimal(time_cost as nat) + ",p="@
        + decimal(parallelism as nat) + "$"@
}

/// `PasswordHasher::hash_password` of `argon2` on the password's bytes and a
/// generated salt, rendered as its PHC string (errors as their displayed
/// text). With the checked parameters and a sixteen-byte salt, its source
/// fails only on a password longer than `argon2::MAX_PWD_LEN` bytes, with
/// `password_hash::Error::Password` ("invalid password"). The PHC string
/// names the algorithm, the version and the costs (`m`, `t`, `p` in that
/// order, no key id or associated data), then the salt and the digest; the
/// salt is random, so nothing is claimed of the text after the costs but that
/// it parses back with those costs as its parameters and checks out against
/// the same password. The claims are for a 64-bit target, where the memory
/// for any cost can be asked for and a failed allocation aborts rather than
/// returns.
#[verifier::external_body]
fn hash_with_salt(hasher: &Argon2idHasher, password: &str, salt: &GeneratedSalt) -> (r: Result<String, String>)
    ensures
        r is Ok <==> password.spec_bytes().len() <= MAX_PASSWORD_BYTES,
        match r {
            Ok(h) => phc_parses(h@) && phc_params(h@) == cost_params(
                hasher.memory_cost,
                hasher.time_cost,
                hasher.parallelism,
            ) && phc_matches(h@, password@) && phc_head(
                hasher.memory_cost,
                hasher.time_cost,
                hasher.parallelism,
            ).is_prefix_of(h@),
            Err(e) => e@ == "invalid password"@,
        },
{
    hasher.inner.hash_password(password.as_bytes(), &salt.inner).map(|h| h.to_string()).map_err(|e| e.to_string())
}

/// A PHC string that `PasswordHash::new` parsed, with its text. Only
/// `parse_phc` makes one.
struct PhcHash<'a> {
    inner: argon2::password_hash::PasswordHash<'a>,
    text: &'a str,
}

impl<'a> View for PhcHash<'a> {
    type V = Seq<char>;

    closed spec fn view(&self) -> Seq<char> {
        self.text@
    }
}

/// `PasswordHash::new` on `hash`, its error as displayed text. Its source
/// refuses an empty string and one whose first `$`-separated field is not
/// empty, that is one that does not begin with `$`.
#[verifier::external_body]
fn parse_phc<'a>(hash: &'a str) -> (r: Result<PhcHash<'a>, String>)
    ensures
        r is Ok <==> phc_parses(hash@),
        r matches Ok(p) ==> p@ == hash@,
        !(hash@.len() > 0 && hash@[0] == '$') ==> r is Err,
{
    argon2::password_hash::PasswordHash::new(hash).map(|inner| PhcHash { inner, text: hash }).map_err(
        |e| e.to_string(),
    )
}

/// `ParamsString::iter` over a parsed hash's parameters, each name and value
/// as a string.
#[verifier::external_body]
fn phc_param_pairs(parsed: &PhcHash) -> (r: Vec<(String, String)>)
    ensures
        param_views(r@) == phc_params(parsed@),
{
    parsed.inner.params.iter().map(|(name, value)| (name.as_str().to_owned(), value.as_str().to_owned())).collect()
}

/// `PasswordVerifier::verify_password` of `argon2` on the password's bytes
/// and a parsed hash, as whether it returned `Ok`. Verification recomputes
/// the hash with the algorithm, version, costs and salt that the PHC string
/// names and no secret, so its answer depends on the hash and the password
/// alone, as `phc_matches` names it. Its source builds the parameters with
/// `Params::new`, which multiplies the `p` value by 8 in a `u32` before
/// checking its range. The parser takes repeated names and the parameters
/// are read in order, so the last `p` is the one used; it must have at most
/// eight characters (any `p` value that is not a decimal is refused before
/// that product). The claims are for a 64-bit target,
/// where the memory for any cost can be asked for and a failed allocation
/// aborts rather than returns.
#[verifier::external_body]
fn verify_parsed(hasher: &Argon2idHasher, parsed: &PhcHash, password: &str) -> (b: bool)
    requires
        parallelism_fits(phc_params(parsed@)),
    ensures
        b == phc_matches(parsed@, password@),
{
    hasher.inner.verify_password(password.as_bytes(), &parsed.inner).is_ok()
}

/// Whether the last `p` parameter among `pairs` is short enough to check.
fn parallelism_digits_fit(pairs: &Vec<(String, String)>) -> (b: bool)
    ensures
        b == parallelism_fits(param_views(pairs@)),
{
    let ghost views = param_views(pairs@);
    let mut fits = true;
    let mut i: usize = 0;
    while i < pairs.len()
        invariant
            i <= pairs.len(),
            views == param_views(pairs@),
            fits == parallelism_fits(views.take(i as int)),
        decreases pairs.len() - i,
    {
        proof {
            reveal_strlit("p");
            assert(views.take(i + 1).drop_last() =~= views.take(i as int));
            assert(views.take(i + 1).last() == (pairs@[i as int].0@, pairs@[i as int].1@));
        }
        if str_equal(pairs[i].0.as_str(), "p") {
            fits = chars_of(pairs[i].1.as_str()).len() <= MAX_PARALLELISM_DIGITS;
        }
        i = i + 1;
    }
    assert(views.take(i as int) =~= views);
    fits
}

/// Hashes and verifies passwords with Argon2id at configured costs.
#[derive(Clone, Debug)]
pub struct RuntimeArgon2Hasher {
    config: Argon2Settings,
}

fn prefixed(head: &str, tail: &str) -> (m: String)
    ensures
        m@ == head@ + tail@,
{
    let mut m = head.to_owned();
    m.append(tail);
    m
}

impl RuntimeArgon2Hasher {
    pub fn new(config: Argon2Settings) -> (h: RuntimeArgon2Hasher)
        ensures
            h.settings() == config,
    {
        RuntimeArgon2Hasher { config }
    }

    pub closed spec fn settings(&self) -> Argon2Settings {
        self.config
    }

    /// The hasher for the configured costs, or why they are refused.
    fn build_argon2(&self) -> (r: Result<Argon2idHasher, String>)
        requires
            self.settings().parallelism <= MAX_CHECKED_PARALLELISM,
        ensures
            match r {
                Ok(h) => costs_accepted(self.settings()) && h.memory_cost == self.settings().memory_cost
                    && h.time_cost == self.settings().time_cost && h.parallelism
                    == self.settings().parallelism,
                Err(msg) => !costs_accepted(self.settings()) && msg@ == "invalid argon2 config: "@ + params_problem(
                    self.settings().memory_cost,
                    self.settings().time_cost,
                    self.settings().parallelism,
                )->Some_0,
            },
    {
        match new_params(self.config.memory_cost, self.config.time_cost, self.config.parallelism) {
            Ok(params) => Ok(argon2id(params)),
            Err(e) => Err(prefixed("invalid argon2 config: ", e.as_str())),
        }
    }

    /// Hashes `password` with a fresh random salt into an Argon2id, version
    /// 19, PHC string at the configured costs. Refused costs give "invalid
    /// argon2 config: " and the reason; a password longer than argon2 takes
    /// gives "failed to hash password: invalid password".
    pub fn hash(&self, password: &str) -> (r: Result<String, String>)
        requires
            self.settings().parallelism <= MAX_CHECKED_PARALLELISM,
        ensures
            !costs_accepted(self.settings()) ==> (r matches Err(msg) && msg@
                == "invalid argon2 config: "@ + params_problem(
                self.settings().memory_cost,
                self.settings().time_cost,
                self.settings().parallelism,
            )->Some_0),
            costs_accepted(self.settings()) ==> (r is Ok <==> password.spec_bytes().len()
                <= MAX_PASSWORD_BYTES),
            costs_accepted(self.settings()) ==> match r {
                Ok(h) => phc_parses(h@) && phc_params(h@) == cost_params(
                    self.settings().memory_cost,
                    self.settings().time_cost,
                    self.settings().parallelism,
                ) && phc_matches(h@, password@) && phc_head(
                    self.settings().memory_cost,
                    self.settings().time_cost,
                    self.settings().parallelism,
                ).is_prefix_of(h@),
                Err(msg) => msg@ == "failed to hash password: invalid password"@,
            },
    {
        let hasher = self.build_argon2()?;
        let salt = generate_salt();
        match hash_with_salt(&hasher, password, &salt) {
            Ok(h) => Ok(h),
            Err(e) => {
                let msg = prefixed("failed to hash password: ", e.as_str());
                proof {
                    reveal_strlit("failed to hash password: ");
                    reveal_strlit("invalid password");
                    reveal_strlit("failed to hash password: invalid password");
                }
                assert(msg@ =~= "failed to hash password: invalid password"@);
                Err(msg)
            },
        }
    }

    /// Checks `password` against the PHC string `hash`. Refused costs give
    /// "invalid argon2 config: " and the reason; a hash that does not parse,
    /// such as one that does not begin with `$`, gives "invalid password
    /// hash: " and the reason; a hash whose parallelism has more digits than
    /// argon2 can check does not match; otherwise the answer is whether the
    /// password matches.
    pub fn verify(&self, hash: &str, password: &str) -> (r: Result<bool, String>)
        requires
            self.settings().parallelism <= MAX_CHECKED_PARALLELISM,
        ensures
            !costs_accepted(self.settings()) ==> (r matches Err(msg) && msg@
                == "invalid argon2 config: "@ + params_problem(
                self.settings().memory_cost,
                self.settings().time_cost,
                self.settings().parallelism,
            )->Some_0),
            costs_accepted(self.settings()) ==> match verify_answer(self.settings(), hash@, password@) {
                Some(b) => r == Ok::<bool, String>(b),
                None => r matches Err(msg) && exists|reason: Seq<char>|
                    msg@ == "invalid password hash: "@ + reason,
            },
            costs_accepted(self.settings()) && !(hash@.len() > 0 && hash@[0] == '$') ==> r is Err,
    {
        let hasher = self.build_argon2()?;
        let parsed = match parse_phc(hash) {
            Ok(p) => p,
            Err(e) => {
                let msg = prefixed("invalid password hash: ", e.as_str());
                assert(msg@ == "invalid password hash: "@ + e@);
                return Err(msg);
            },
        };
        let pairs = phc_param_pairs(&parsed);
        if !parallelism_digits_fit(&pairs) {
            return Ok(false);
        }
        Ok(verify_parsed(&hasher, &parsed, password))
    }
}

/// The configured costs are ones Argon2 accepts.
pub open spec fn costs_accepted(s: Argon2Settings) -> bool {
    params_problem(s.memory_cost, s.time_cost, s.parallelism) is None
}

/// What `verify` answers when it succeeds: with accepted costs and a hash
/// that parses, `false` when a parallelism parameter is too long to check,
/// else whether the password matches.
pub open spec fn verify_answer(s: Argon2Settings, hash: Seq<char>, password: Seq<char>) -> Option<bool> {
    if !costs_accepted(s) || !phc_parses(hash) {
        None
    } else if !parallelism_fits(phc_params(hash)) {
        Some(false)
    } else {
        Some(phc_matches(hash, password))
    }
}

/// A PHC string that `hash` produced for a password verifies against that
/// same password under the same costs.
pub proof fn law_hash_then_verify(s: Argon2Settings, h: Seq<char>, password: Seq<char>)
    requires
        costs_accepted(s),
        phc_parses(h),
        phc_params(h) == cost_params(s.memory_cost, s.time_cost, s.parallelism),
        phc_matches(h, password),
    ensures
        verify_answer(s, h, password) == Some(true),
{
    let params = cost_params(s.memory_cost, s.time_cost, s.parallelism);
    assert(s.parallelism < ten_pow(8)) by {
        reveal_with_fuel(ten_pow, 9);
    }
    lemma_decimal_len(s.parallelism as nat, 8);
    assert(last_param(params, "p"@) == Some(decimal(s.parallelism as nat)));
    assert(parallelism_fits(params));
}

} // verus!
