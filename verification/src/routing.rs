//! Which handler answers a request: the method and the path, after the
//! name of the deployment stage is taken off the front of the path.
use vstd::prelude::*;

verus! {

/// The methods of HTTP that the service tells apart.
#[derive(Debug, PartialEq, Eq, Structural, Clone, Copy)]
pub enum HttpMethod {
    Get,
    Post,
    Put,
    Delete,
    Other,
}

/// The handlers of the service.
#[derive(Debug, PartialEq, Eq, Structural, Clone, Copy)]
pub enum Route {
    /// `GET /rate`: read a player's rating.
    GetRate,
    /// `POST /rate`: add a player.
    PostRate,
    /// `PUT /rate`: change a player's name and rating.
    PutRate,
    /// `DELETE /rate`: remove a player, which has no handler.
    DeleteRate,
    /// `POST /rate/calculation`: settle a match.
    PostRateCalculation,
    /// Any other method or path.
    NotSupported,
}

/// The handler for `method` on the path `path` (stage already taken off).
pub open spec fn spec_route(method: HttpMethod, path: Seq<char>) -> Route {
    if path == "/rate"@ {
        match method {
            HttpMethod::Get => Route::GetRate,
            HttpMethod::Post => Route::PostRate,
            HttpMethod::Put => Route::PutRate,
            HttpMethod::Delete => Route::DeleteRate,
            HttpMethod::Other => Route::NotSupported,
        }
    } else if path == "/rate/calculation"@ && method == HttpMethod::Post {
        Route::PostRateCalculation
    } else {
        Route::NotSupported
    }
}

/// Whether two texts are the same.
fn same_text(a: &str, b: &str) -> (same: bool)
    ensures
        same == (a@ == b@),
{
    a.to_owned() == b.to_owned()
}

/// The handler for `method` on the path `path` (stage already taken off).
pub fn route(method: HttpMethod, path: &str) -> (route: Route)
    ensures
        route == spec_route(method, path@),
{
    if same_text(path, "/rate") {
        match method {
            HttpMethod::Get => Route::GetRate,
            HttpMethod::Post => Route::PostRate,
            HttpMethod::Put => Route::PutRate,
            HttpMethod::Delete => Route::DeleteRate,
            HttpMethod::Other => Route::NotSupported,
        }
    } else if same_text(path, "/rate/calculation") && method == HttpMethod::Post {
        Route::PostRateCalculation
    } else {
        Route::NotSupported
    }
}

/// Whether `fancy_regex::Regex::new` accepts `pattern`.
pub uninterp spec fn regex_compiles(pattern: Seq<char>) -> bool;

/// What `fancy_regex::Regex::find` reports for the compiled `pattern` on
/// `text`: `None` where the search fails (the matcher exceeds its stack or
/// backtracking limit), `Some(None)` where nothing matches, and
/// `Some(Some((before, after)))` with the text before and after the first
/// match.
pub uninterp spec fn regex_find_outcome(pattern: Seq<char>, text: Seq<char>) -> Option<
    Option<(Seq<char>, Seq<char>)>,
>;

/// The stage pattern `^/\w+(?=/)`, character by character: the start of
/// the text, a slash, one or more word characters, then a slash ahead.
pub open spec fn word_stage_pattern() -> Seq<char> {
    seq!['^', '/', '\\', 'w', '+', '(', '?', '=', '/', ')']
}

/// Whether `c` is an ASCII letter, an ASCII digit or `_`; `\w` matches
/// each of these.
pub open spec fn is_ascii_word_char(c: char) -> bool {
    ('a' <= c && c <= 'z') || ('A' <= c && c <= 'Z') || ('0' <= c && c <= '9') || c == '_'
}

/// Whether `s` is one or more ASCII word characters.
pub open spec fn is_ascii_word(s: Seq<char>) -> bool {
    s.len() > 0 && forall|i: int| 0 <= i < s.len() ==> is_ascii_word_char(#[trigger] s[i])
}

/// Why a pattern could not be applied to a text.
#[derive(Debug, PartialEq, Eq, Structural, Clone, Copy)]
pub enum RegexFailure {
    /// The pattern does not compile.
    Compile,
    /// The search gave up: the matcher exceeded its stack or backtracking
    /// limit on the text.
    Search,
}

/// Compiles `pattern` with `fancy_regex::Regex::new` and, where that
/// succeeds, searches `text` with `fancy_regex::Regex::find`, handing back
/// the text before and after the first match. The contract ties the
/// outcome of each call to a name over the arguments, and states that the
/// two pieces surround the match in `text`. Of the stage pattern
/// `^/\w+(?=/)` it states what the regex syntax documents: the pattern
/// compiles; where no slash follows the first character nothing matches;
/// and on `/` + word characters + a rest that starts with a slash, the match
/// is the slash and the word characters, so what follows it is the rest.
/// Which texts make the search fail is not stated.
#[verifier::external_body]
fn find_first_match(pattern: &str, text: &str) -> (result: Result<Option<(String, String)>, RegexFailure>)
    ensures
        match result {
            Err(RegexFailure::Compile) => !regex_compiles(pattern@),
            Err(RegexFailure::Search) => regex_compiles(pattern@)
                && regex_find_outcome(pattern@, text@) is None,
            Ok(None) => regex_compiles(pattern@)
                && regex_find_outcome(pattern@, text@) == Some(None::<(Seq<char>, Seq<char>)>),
            Ok(Some((before, after))) => regex_compiles(pattern@)
                && regex_find_outcome(pattern@, text@) == Some(Some((before@, after@)))
                && exists|matched: Seq<char>| text@ == before@ + matched + after@,
        },
        pattern@ == word_stage_pattern() ==> match result {
            Err(RegexFailure::Compile) => false,
            _ => true,
        },
        pattern@ == word_stage_pattern() && (forall|i: int|
            1 <= i < text@.len() ==> #[trigger] text@[i] != '/') ==> match result {
            Ok(Some(_)) => false,
            _ => true,
        },
        pattern@ == word_stage_pattern() ==> forall|stage: Seq<char>, rest: Seq<char>|
            #![trigger seq!['/'] + stage + rest]
            is_ascii_word(stage) && rest.len() > 0 && rest[0] == '/' && text@ == seq!['/'] + stage
                + rest ==> match result {
                Ok(Some((before, after))) => before@ == Seq::<char>::empty() && after@ == rest,
                Ok(None) => false,
                Err(e) => e == RegexFailure::Search,
            },
{
    let re = match fancy_regex::Regex::new(pattern) {
        Ok(re) => re,
        Err(_) => return Err(RegexFailure::Compile),
    };
    match re.find(text) {
        Ok(Some(m)) => Ok(Some((text[..m.start()].to_string(), text[m.end()..].to_string()))),
        Ok(None) => Ok(None),
        Err(_) => Err(RegexFailure::Search),
    }
}

/// The pattern of the stage name at the front of a path: a slash, then
/// word characters up to the next slash.
pub open spec fn stage_pattern() -> Seq<char> {
    "^/\\w+(?=/)"@
}

/// What taking the stage name off `path` gives: the path with the first
/// match of the stage pattern removed, the path itself where nothing
/// matches, or why the pattern could not be applied.
pub open spec fn spec_strip_stage(path: Seq<char>) -> Result<Seq<char>, RegexFailure> {
    if !regex_compiles(stage_pattern()) {
        Err(RegexFailure::Compile)
    } else {
        match regex_find_outcome(stage_pattern(), path) {
            None => Err(RegexFailure::Search),
            Some(None) => Ok(path),
            Some(Some((before, after))) => Ok(before + after),
        }
    }
}

/// The path without the name of the deployment stage in front.
pub fn strip_stage(path: &str) -> (stripped: Result<String, RegexFailure>)
    ensures
        match stripped {
            Ok(s) => spec_strip_stage(path@) == Ok::<Seq<char>, RegexFailure>(s@),
            Err(e) => spec_strip_stage(path@) == Err::<Seq<char>, RegexFailure>(e),
        },
        match stripped {
            Err(RegexFailure::Compile) => false,
            _ => true,
        },
        (forall|i: int| 1 <= i < path@.len() ==> #[trigger] path@[i] != '/') ==> match stripped {
            Ok(p) => p@ == path@,
            Err(e) => e == RegexFailure::Search,
        },
        forall|stage: Seq<char>, rest: Seq<char>|
            #![trigger seq!['/'] + stage + rest]
            is_ascii_word(stage) && rest.len() > 0 && rest[0] == '/' && path@ == seq!['/'] + stage
                + rest ==> match stripped {
                Ok(p) => p@ == rest,
                Err(e) => e == RegexFailure::Search,
            },
{
    proof {
        reveal_strlit("^/\\w+(?=/)");
        assert("^/\\w+(?=/)"@ =~= word_stage_pattern());
    }
    match find_first_match("^/\\w+(?=/)", path) {
        Ok(Some((before, after))) => Ok(before.concat(after.as_str())),
        Ok(None) => Ok(path.to_owned()),
        Err(e) => Err(e),
    }
}

/// The handler for `method` on the path `raw_path` as it came in, stage
/// name included; the failure where the stage pattern cannot be applied.
pub fn route_request(method: HttpMethod, raw_path: &str) -> (route: Result<Route, RegexFailure>)
    ensures
        match spec_strip_stage(raw_path@) {
            Ok(path) => route == Ok::<Route, RegexFailure>(spec_route(method, path)),
            Err(e) => route == Err::<Route, RegexFailure>(e),
        },
        forall|stage: Seq<char>, rest: Seq<char>|
            #![trigger seq!['/'] + stage + rest]
            is_ascii_word(stage) && rest.len() > 0 && rest[0] == '/' && raw_path@ == seq!['/']
                + stage + rest ==> match route {
                Ok(r) => r == spec_route(method, rest),
                Err(e) => e == RegexFailure::Search,
            },
{
    match strip_stage(raw_path) {
        Ok(path) => Ok(route(method, path.as_str())),
        Err(e) => Err(e),
    }
}

} // verus!
