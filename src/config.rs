use vstd::prelude::*;

verus! {

/// The port the server listens on when none is given.
pub const DEFAULT_PORT: u16 = 8080;

/// The number of inference threads when none is given.
pub const DEFAULT_THREADS: u16 = 8;

/// The largest number of generated tokens when none is given.
pub const DEFAULT_OUTPUT_TOKENS: usize = 2048;

/// The model file used when none is given and none is found.
pub const DEFAULT_MODEL_FILE: &'static str = "model.bin";

/// The extension that marks a model file.
pub const MODEL_EXTENSION: &'static str = "bin";

/// Whether a character is an ASCII decimal digit.
pub open spec fn is_digit(c: char) -> bool {
    '0' <= c && c <= '9'
}

/// The value of a string of decimal digits.
pub open spec fn digits_value(s: Seq<char>) -> nat
    decreases s.len(),
{
    if s.len() == 0 {
        0
    } else {
        digits_value(s.drop_last()) * 10 + ((s.last() as u32) - ('0' as u32)) as nat
    }
}

/// The number written by an optional `+` followed by one or more decimal
/// digits, and nothing else.
pub open spec fn decimal_value(s: Seq<char>) -> Option<nat> {
    let digits = if s.len() > 0 && s[0] == '+' {
        s.drop_first()
    } else {
        s
    };
    if digits.len() > 0 && forall|i: int| 0 <= i < digits.len() ==> is_digit(#[trigger] digits[i]) {
        Some(digits_value(digits))
    } else {
        None
    }
}

/// A `u16` written in decimal, if the text is one.
pub open spec fn parsed_u16(s: Seq<char>) -> Option<u16> {
    match decimal_value(s) {
        Some(n) => if n <= u16::MAX {
            Some(n as u16)
        } else {
            None
        },
        None => None,
    }
}

/// A `usize` written in decimal, if the text is one.
pub open spec fn parsed_usize(s: Seq<char>) -> Option<usize> {
    match decimal_value(s) {
        Some(n) => if n <= usize::MAX {
            Some(n as usize)
        } else {
            None
        },
        None => None,
    }
}

/// Relies on `<u16 as FromStr>::from_str`: an optional `+` and decimal
/// digits only, with a value that fits.
#[verifier::external_body]
fn parse_u16(s: &str) -> (r: Option<u16>)
    ensures
        r == parsed_u16(s@),
{
    s.parse::<u16>().ok()
}

/// Relies on `<usize as FromStr>::from_str`: an optional `+` and decimal
/// digits only, with a value that fits.
#[verifier::external_body]
fn parse_usize(s: &str) -> (r: Option<usize>)
    ensures
        r == parsed_usize(s@),
{
    s.parse::<usize>().ok()
}

/// The value of an optional `u16` argument: the argument when it is a valid
/// number, the default otherwise.
pub open spec fn u16_setting(arg: Option<Seq<char>>, default: u16) -> u16 {
    match arg {
        Some(a) => match parsed_u16(a) {
            Some(v) => v,
            None => default,
        },
        None => default,
    }
}

/// The value of an optional `usize` argument: the argument when it is a
/// valid number, the default otherwise.
pub open spec fn usize_setting(arg: Option<Seq<char>>, default: usize) -> usize {
    match arg {
        Some(a) => match parsed_usize(a) {
            Some(v) => v,
            None => default,
        },
        None => default,
    }
}

/// The text of an optional argument.
pub open spec fn text_view(arg: Option<&str>) -> Option<Seq<char>> {
    match arg {
        Some(a) => Some(a@),
        None => None,
    }
}

/// Reads an optional `u16` argument, falling back on the default.
pub fn u16_or_default(arg: Option<&str>, default: u16) -> (r: u16)
    ensures
        r == u16_setting(text_view(arg), default),
{
    match arg {
        Some(a) => match parse_u16(a) {
            Some(v) => v,
            None => default,
        },
        None => default,
    }
}

/// Reads an optional `usize` argument, falling back on the default.
pub fn usize_or_default(arg: Option<&str>, default: usize) -> (r: usize)
    ensures
        r == usize_setting(text_view(arg), default),
{
    match arg {
        Some(a) => match parse_usize(a) {
            Some(v) => v,
            None => default,
        },
        None => default,
    }
}

/// The integer settings of the `run` command.
#[derive(Clone, Copy, Debug, PartialEq, Eq, Structural)]
pub struct RunSettings {
    pub port: u16,
    pub num_threads: u16,
    pub output_tokens: usize,
}

impl RunSettings {
    /// The settings given by the optional `port`, `num_threads` and
    /// `output_tokens` arguments, each falling back on its default.
    pub fn from_args(port: Option<&str>, num_threads: Option<&str>, output_tokens: Option<&str>) -> (r:
        Self)
        ensures
            r.port == u16_setting(text_view(port), DEFAULT_PORT),
            r.num_threads == u16_setting(text_view(num_threads), DEFAULT_THREADS),
            r.output_tokens == usize_setting(text_view(output_tokens), DEFAULT_OUTPUT_TOKENS),
    {
        RunSettings {
            port: u16_or_default(port, DEFAULT_PORT),
            num_threads: u16_or_default(num_threads, DEFAULT_THREADS),
            output_tokens: usize_or_default(output_tokens, DEFAULT_OUTPUT_TOKENS),
        }
    }
}

/// The extension of a path, as `std::path::Path::extension` finds it.
pub uninterp spec fn extension_of(path: Seq<char>) -> Option<Seq<char>>;

/// Relies on `std::path::Path::extension`: the part of the file name after
/// its last dot, if it has one.
#[verifier::external_body]
fn path_extension(path: &str) -> (r: Option<String>)
    ensures
        r.deep_view() == extension_of(path@),
{
    std::path::Path::new(path).extension().map(|e| e.to_string_lossy().into_owned())
}

/// Whether a path's extension marks a model file.
pub open spec fn is_model_path(path: Seq<char>) -> bool {
    extension_of(path) == Some(MODEL_EXTENSION@)
}

/// Whether an extension is the one that marks a model file.
pub fn is_model_extension(extension: Option<&str>) -> (r: bool)
    ensures
        r == (text_view(extension) == Some(MODEL_EXTENSION@)),
{
    match extension {
        Some(e) => {
            let owned = e.to_owned();
            let expected = MODEL_EXTENSION.to_owned();
            owned == expected
        },
        None => false,
    }
}

/// The first of the listed paths that names a model file.
pub fn find_local_model(paths: &Vec<String>) -> (r: Option<String>)
    ensures
        r is None <==> forall|i: int| 0 <= i < paths@.len() ==> !is_model_path(#[trigger] paths@[i]@),
        r matches Some(p) ==> exists|i: int|
            0 <= i < paths@.len() && (#[trigger] paths@[i])@ == p@ && is_model_path(p@) && forall|
                j: int,
            | 0 <= j < i ==> !is_model_path(#[trigger] paths@[j]@),
{
    let mut i: usize = 0;
    while i < paths.len()
        invariant
            i <= paths@.len(),
            forall|j: int| 0 <= j < i ==> !is_model_path(#[trigger] paths@[j]@),
        decreases paths@.len() - i,
    {
        let extension = path_extension(paths[i].as_str());
        let found = match &extension {
            Some(e) => is_model_extension(Some(e.as_str())),
            None => is_model_extension(None),
        };
        if found {
            let p = paths[i].clone();
            return Some(p);
        }
        i = i + 1;
    }
    None
}

/// The model file to load: the one given, else the one found, else the
/// default name.
pub fn choose_model_path(given: Option<String>, found: Option<String>) -> (r: String)
    ensures
        given matches Some(g) ==> r@ == g@,
        given is None ==> (found matches Some(f) ==> r@ == f@),
        given is None && found is None ==> r@ == DEFAULT_MODEL_FILE@,
{
    match given {
        Some(g) => g,
        None => match found {
            Some(f) => f,
            None => DEFAULT_MODEL_FILE.to_owned(),
        },
    }
}

} // verus!
