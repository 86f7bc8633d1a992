//! Configuration checks: the environment variables the assistant reads and
//! the validation of API keys taken from them.
//!
//! The environment is handed in as `(name, value)` pairs; the first pair
//! with a name gives that variable's value.
use vstd::prelude::*;
use crate::engine::error::IDorisError;
use crate::text::{has_infix, join, owned, push_all, trim, trimmed};

verus! {

/// Value of the variable `name` in `env` (the first pair with that name).
pub open spec fn env_lookup(env: Seq<(String, String)>, name: Seq<char>) -> Option<Seq<char>>
    decreases env.len(),
{
    if env.len() == 0 {
        None
    } else if env[0].0@ == name {
        Some(env[0].1@)
    } else {
        env_lookup(env.drop_first(), name)
    }
}

/// The value of an optional variable, or the empty text when it is unset.
pub open spec fn or_empty(v: Option<Seq<char>>) -> Seq<char> {
    match v {
        Some(s) => s,
        None => Seq::empty(),
    }
}

/// The first of three variables that is set, or the empty text.
pub open spec fn first_set(env: Seq<(String, String)>, a: Seq<char>, b: Seq<char>, c: Seq<char>) -> Seq<char> {
    match env_lookup(env, a) {
        Some(v) => v,
        None => match env_lookup(env, b) {
            Some(v) => v,
            None => or_empty(env_lookup(env, c)),
        },
    }
}

/// Value of the variable `name` in `env`, if it is set.
pub fn env_var(env: &Vec<(String, String)>, name: &str) -> (r: Option<String>)
    ensures
        match r {
            Some(v) => env_lookup(env@, name@) == Some(v@),
            None => env_lookup(env@, name@) is None,
        },
{
    let key = owned(name);
    let mut i: usize = 0;
    assert(env@.skip(0) == env@);
    while i < env.len()
        invariant
            i <= env@.len(),
            key@ == name@,
            env_lookup(env@, name@) == env_lookup(env@.skip(i as int), name@),
        decreases env@.len() - i,
    {
        assert(env@.skip(i as int).drop_first() == env@.skip(i + 1));
        if env[i].0 == key {
            return Some(env[i].1.clone());
        }
        i += 1;
    }
    None
}

/// Value of the variable `name`, or the empty text (`unwrap_or_default`).
pub fn env_or_empty(env: &Vec<(String, String)>, name: &str) -> (r: String)
    ensures
        r@ == or_empty(env_lookup(env@, name@)),
{
    match env_var(env, name) {
        Some(v) => v,
        None => String::new(),
    }
}

/// What `validate_api_key` decides for the variable `name`: its value when
/// it is set and not blank, else the message of the configuration error.
pub open spec fn api_key_check(env: Seq<(String, String)>, name: Seq<char>) -> Result<Seq<char>, Seq<char>> {
    match env_lookup(env, name) {
        None => Err(name + " not configured. Please set it in your .env file."@),
        Some(v) => if trim(v).len() == 0 {
            Err(name + " is empty. Please provide a valid value."@)
        } else {
            Ok(v)
        },
    }
}

/// Validates a specific API key is present and not empty
pub fn validate_api_key(env: &Vec<(String, String)>, key_name: &str) -> (r: Result<String, IDorisError>)
    ensures
        match r {
            Ok(v) => api_key_check(env@, key_name@) == Ok::<Seq<char>, Seq<char>>(v@),
            Err(e) => (e matches IDorisError::ConfigError(m) && api_key_check(env@, key_name@)
                == Err::<Seq<char>, Seq<char>>(m@)),
        },
{
    match env_var(env, key_name) {
        None => {
            let mut m = owned(key_name);
            push_all(&mut m, " not configured. Please set it in your .env file.");
            Err(IDorisError::ConfigError(m))
        },
        Some(val) => {
            let t = trimmed(val.as_str());
            if t.as_str().is_empty() {
                let mut m = owned(key_name);
                push_all(&mut m, " is empty. Please provide a valid value.");
                Err(IDorisError::ConfigError(m))
            } else {
                Ok(val)
            }
        },
    }
}

/// The first of `names` whose key passes `api_key_check`, with its value.
pub open spec fn first_valid_key(env: Seq<(String, String)>, names: Seq<&str>) -> Option<Seq<char>>
    decreases names.len(),
{
    if names.len() == 0 {
        None
    } else {
        match api_key_check(env, names[0]@) {
            Ok(v) => Some(v),
            Err(_) => first_valid_key(env, names.drop_first()),
        }
    }
}

/// The texts of `names`.
pub open spec fn str_views(names: Seq<&str>) -> Seq<Seq<char>> {
    names.map_values(|n: &str| n@)
}

/// Validates API keys with multiple possible names (fallback support)
pub fn validate_api_key_with_fallbacks(env: &Vec<(String, String)>, preferred: &str, fallbacks: &[&str]) -> (r: Result<String, IDorisError>)
    ensures
        match r {
            Ok(v) => first_valid_key(env@, seq![preferred] + fallbacks@) == Some(v@),
            Err(e) => first_valid_key(env@, seq![preferred] + fallbacks@) is None && (e matches IDorisError::ConfigError(m)
                && m@ == "None of the API keys found: "@ + preferred@ + ", "@ + join(str_views(fallbacks@), ", "@)),
        },
{
    let ghost names = seq![preferred] + fallbacks@;
    assert(names.drop_first() == fallbacks@);
    match validate_api_key(env, preferred) {
        Ok(v) => {
            return Ok(v);
        },
        Err(_) => {},
    }
    assert(api_key_check(env@, preferred@) is Err);
    assert(names[0] == preferred);
    assert(fallbacks@.skip(0) == fallbacks@);
    let mut i: usize = 0;
    while i < fallbacks.len()
        invariant
            i <= fallbacks@.len(),
            names == seq![preferred] + fallbacks@,
            first_valid_key(env@, names) == first_valid_key(env@, fallbacks@.skip(i as int)),
        decreases fallbacks@.len() - i,
    {
        assert(fallbacks@.skip(i as int).drop_first() == fallbacks@.skip(i + 1));
        match validate_api_key(env, fallbacks[i]) {
            Ok(v) => {
                return Ok(v);
            },
            Err(_) => {},
        }
        i += 1;
    }
    let mut m = owned("None of the API keys found: ");
    push_all(&mut m, preferred);
    push_all(&mut m, ", ");
    let joined = join_strs(fallbacks, ", ");
    push_all(&mut m, joined.as_str());
    Err(IDorisError::ConfigError(m))
}

/// `parts` joined with `sep` (`[&str]::join`).
pub fn join_strs(parts: &[&str], sep: &str) -> (r: String)
    ensures
        r@ == join(str_views(parts@), sep@),
{
    let mut r = String::new();
    let mut i: usize = 0;
    while i < parts.len()
        invariant
            i <= parts@.len(),
            r@ == join(str_views(parts@.take(i as int)), sep@),
        decreases parts@.len() - i,
    {
        assert(str_views(parts@.take(i + 1)).drop_last() == str_views(parts@.take(i as int)));
        assert(str_views(parts@.take(i + 1)).last() == parts@[i as int]@);
        if i > 0 {
            push_all(&mut r, sep);
        } else {
            assert(str_views(parts@.take(1)) == seq![parts@[0]@]);
        }
        push_all(&mut r, parts[i]);
        i += 1;
    }
    assert(parts@.take(parts@.len() as int) == parts@);
    r
}

/// The notes printed while the environment is checked, in order: the model
/// cache location when neither `HF_HOME` nor `TRANSFORMERS_CACHE` is set,
/// and each optional service whose keys are missing.
pub open spec fn env_notes(env: Seq<(String, String)>) -> Seq<Seq<char>> {
    (if env_lookup(env, "HF_HOME"@) is None && env_lookup(env, "TRANSFORMERS_CACHE"@) is None {
        seq!["Info: HF_HOME or TRANSFORMERS_CACHE not set. Models will use default cache location."@]
    } else {
        Seq::empty()
    }) + (if env_lookup(env, "Access_Key_ID"@) is None && env_lookup(env, "JIMENG_ACCESS_KEY"@) is None {
        seq!["Info: ByteDance/Jimeng API keys not configured. Video generation with ByteDance will not be available."@]
    } else {
        Seq::empty()
    }) + (if env_lookup(env, "TOGETHER_API_KEY"@) is None {
        seq!["Info: Together.ai API key not configured."@]
    } else {
        Seq::empty()
    }) + (if env_lookup(env, "REPLICATE_API_TOKEN"@) is None {
        seq!["Info: Replicate API token not configured."@]
    } else {
        Seq::empty()
    })
}

/// Validates the environment: every key is optional, so it always succeeds,
/// with the notes to print about what is missing.
pub fn validate_env_config(env: &Vec<(String, String)>) -> (r: Result<Vec<String>, IDorisError>)
    ensures
        r matches Ok(notes) && crate::text::string_views(notes@) == env_notes(env@),
{
    let mut notes: Vec<String> = Vec::new();
    if env_var(env, "HF_HOME").is_none() && env_var(env, "TRANSFORMERS_CACHE").is_none() {
        notes.push(owned("Info: HF_HOME or TRANSFORMERS_CACHE not set. Models will use default cache location."));
    }
    let ghost a = crate::text::string_views(notes@);
    if env_var(env, "Access_Key_ID").is_none() && env_var(env, "JIMENG_ACCESS_KEY").is_none() {
        notes.push(owned("Info: ByteDance/Jimeng API keys not configured. Video generation with ByteDance will not be available."));
    }
    let ghost b = crate::text::string_views(notes@);
    if env_var(env, "TOGETHER_API_KEY").is_none() {
        notes.push(owned("Info: Together.ai API key not configured."));
    }
    let ghost c = crate::text::string_views(notes@);
    if env_var(env, "REPLICATE_API_TOKEN").is_none() {
        notes.push(owned("Info: Replicate API token not configured."));
    }
    assert(crate::text::string_views(notes@) =~= env_notes(env@));
    Ok(notes)
}

} // verus!
