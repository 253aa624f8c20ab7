use vstd::prelude::*;

verus! {

/// Where the remote library is and whom to log in as.
pub struct Config {
    pub server: String,
    pub username: String,
    pub password: String,
}

impl Default for Config {
    /// Placeholders that a user replaces in the configuration file.
    fn default() -> (r: Self)
        ensures
            r.server@ == "serverurl"@,
            r.username@ == "USERNAME"@,
            r.password@ == "PASSWORD"@,
    {
        Config {
            server: "serverurl".to_owned(),
            username: "USERNAME".to_owned(),
            password: "PASSWORD".to_owned(),
        }
    }
}

/// The configuration with the per-session token derived from its password.
pub struct Cfg {
    pub config: Config,
    pub salt: String,
    pub token: String,
}

/// The MD5 digest of the UTF-8 bytes of `s`, in lowercase hex.
pub uninterp spec fn md5_hex_of(s: Seq<char>) -> Seq<char>;

/// Relies on md5::compute and the digest's `Debug` format, which writes
/// each of the sixteen bytes as two lowercase hex digits.
#[verifier::external_body]
fn md5_hex(s: &str) -> (r: String)
    ensures
        r@ == md5_hex_of(s@),
        r@.len() == 32,
{
    format!("{:?}", md5::compute(s.as_bytes()))
}

/// Relies on String::push_str: appends `s` to `dst`.
#[verifier::external_body]
pub(crate) fn push_str(dst: &mut String, s: &str)
    ensures
        final(dst)@ == old(dst)@ + s@,
{
    dst.push_str(s)
}

impl Cfg {
    /// Derives the token: the MD5 of the password followed by the salt.
    pub fn new(config: Config, salt: String) -> (r: Cfg)
        ensures
            r.config == config,
            r.salt == salt,
            r.token@ == md5_hex_of(config.password@ + salt@),
    {
        let mut joined = config.password.clone();
        push_str(&mut joined, salt.as_str());
        let token = md5_hex(joined.as_str());
        Cfg { config, salt, token }
    }
}

} // verus!
