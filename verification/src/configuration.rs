use vstd::prelude::*;

verus! {

/// Everything an organism is configured with.
pub struct Settings {
    pub application: ApplicationSettings,
    pub ecosystem: EcosystemSettings,
}

/// Where the organisms of the population listen: organism `i` listens on
/// `addr_host:(addr_base_port + i)`.
pub struct ApplicationSettings {
    pub addr_host: String,
    pub addr_base_port: usize,
}

/// The shape of the population.
pub struct EcosystemSettings {
    pub population_size: usize,
}

/// The running environment, which picks the configuration file layered over
/// the base one.
#[derive(Debug, PartialEq, Eq, Structural, Clone, Copy)]
pub enum Environment {
    Local,
    Production,
}

/// The name an environment is written with, and the stem of its configuration file.
pub open spec fn environment_name(e: Environment) -> Seq<char> {
    match e {
        Environment::Local => "local"@,
        Environment::Production => "production"@,
    }
}

/// The environment whose (lower-case) name is `name`, if there is one.
pub open spec fn environment_named(name: Seq<char>) -> Option<Environment> {
    if name == "local"@ {
        Some(Environment::Local)
    } else if name == "production"@ {
        Some(Environment::Production)
    } else {
        None
    }
}

/// The message with which a name that is no environment is refused.
pub open spec fn unsupported_environment_message(name: Seq<char>) -> Seq<char> {
    name + " is not a supported environment. Use either `local` or `production`."@
}

/// What parsing the lower-cased name `name` gives: the environment of that
/// name, or the message that refuses it.
pub open spec fn parse_lowercase_spec(name: Seq<char>) -> Result<Environment, Seq<char>> {
    match environment_named(name) {
        Some(e) => Ok(e),
        None => Err(unsupported_environment_message(name)),
    }
}

/// The outcome `res` is that of parsing the lower-cased name `name`.
pub open spec fn parsed_as(res: Result<Environment, String>, name: Seq<char>) -> bool {
    match res {
        Ok(e) => parse_lowercase_spec(name) == Ok::<Environment, Seq<char>>(e),
        Err(msg) => parse_lowercase_spec(name) == Err::<Environment, Seq<char>>(msg@),
    }
}

/// The name of an environment parses back to that environment, so no two
/// environments share a name.
pub proof fn lemma_environment_name_round_trip(e: Environment)
    ensures
        parse_lowercase_spec(environment_name(e)) == Ok::<Environment, Seq<char>>(e),
{
    reveal_strlit("local");
    reveal_strlit("production");
    assert("local"@ != "production"@) by {
        assert("local"@.len() != "production"@.len());
    }
}

/// Only the two environment names are accepted: a lower-cased name parses
/// to `Local` exactly when it is `local`, to `Production` exactly when it is
/// `production`, and anything else is refused with a message that starts
/// with the name itself.
pub proof fn lemma_only_environment_names_parse(name: Seq<char>)
    ensures
        parse_lowercase_spec(name) == Ok::<Environment, Seq<char>>(Environment::Local) <==> name
            == "local"@,
        parse_lowercase_spec(name) == Ok::<Environment, Seq<char>>(Environment::Production)
            <==> name == "production"@,
        parse_lowercase_spec(name) is Err <==> (name != "local"@ && name != "production"@),
        parse_lowercase_spec(name) matches Err(msg) ==> msg.take(name.len() as int) == name
            && msg.skip(name.len() as int)
            == " is not a supported environment. Use either `local` or `production`."@,
        forall|e: Environment|
            parse_lowercase_spec(name) == Ok::<Environment, Seq<char>>(e) ==> name
                == environment_name(e),
{
    reveal_strlit("local");
    reveal_strlit("production");
    assert("local"@ != "production"@) by {
        assert("local"@.len() != "production"@.len());
    }
    if let Err(msg) = parse_lowercase_spec(name) {
        assert(msg.take(name.len() as int) =~= name);
        assert(msg.skip(name.len() as int)
            =~= " is not a supported environment. Use either `local` or `production`."@);
    }
}

/// The lower-case form of a string, as `str::to_lowercase` computes it:
/// Unicode's lower-case mapping, which for a few characters (such as a
/// final capital sigma) depends on the characters around them.
pub uninterp spec fn lowercase(s: Seq<char>) -> Seq<char>;

/// Calls `str::to_lowercase`. What is claimed: the result is the lower-case
/// form of the argument, a function of the argument alone; which string that
/// is, is left to the name `lowercase`.
#[verifier::external_body]
fn to_lowercase(s: &str) -> (r: String)
    ensures
        r@ == lowercase(s@),
{
    s.to_lowercase()
}

impl Environment {
    /// The name of the environment: `local` or `production`.
    pub fn as_str(&self) -> (s: &'static str)
        ensures
            s@ == environment_name(*self),
    {
        match self {
            Environment::Local => "local",
            Environment::Production => "production",
        }
    }

    /// Parses an already lower-cased name: `local` and `production` are the
    /// environments of those names; anything else is refused with a message
    /// that names it.
    pub fn parse_lowercase(name: String) -> (res: Result<Environment, String>)
        ensures
            parsed_as(res, name@),
            res matches Ok(e) ==> name@ == environment_name(e),
            res is Ok <==> (name@ == "local"@ || name@ == "production"@),
    {
        proof {
            lemma_only_environment_names_parse(name@);
        }
        let local = "local".to_owned();
        let production = "production".to_owned();
        if name == local {
            Ok(Environment::Local)
        } else if name == production {
            Ok(Environment::Production)
        } else {
            let mut msg = name;
            msg.append(" is not a supported environment. Use either `local` or `production`.");
            Err(msg)
        }
    }

    /// Picks the running environment from the value of the environment
    /// variable that names it: `local` when it is not set, else its value
    /// parsed case-insensitively.
    pub fn select(var: Option<String>) -> (res: Result<Environment, String>)
        ensures
            var is None ==> res == Ok::<Environment, String>(Environment::Local),
            var matches Some(v) ==> parsed_as(res, lowercase(v@)),
    {
        match var {
            Some(v) => Environment::try_from(v),
            None => Ok(Environment::Local),
        }
    }
}

impl TryFrom<String> for Environment {
    type Error = String;

    /// Parses an environment name case-insensitively: the name is lower-cased,
    /// then `local` and `production` are accepted and anything else is refused
    /// with a message that names the lower-cased input.
    fn try_from(s: String) -> (res: Result<Environment, String>)
        ensures
            parsed_as(res, lowercase(s@)),
    {
        let lower = to_lowercase(s.as_str());
        Environment::parse_lowercase(lower)
    }
}

impl vstd::std_specs::convert::TryFromSpecImpl<String> for Environment {
    /// Nothing is claimed through the generic `TryFrom` specification: the
    /// error message is a `String` that a specification cannot build. What
    /// `try_from` returns is stated on the method itself.
    open spec fn obeys_try_from_spec() -> bool {
        false
    }

    open spec fn try_from_spec(v: String) -> Result<Environment, String> {
        arbitrary()
    }
}

} // verus!
