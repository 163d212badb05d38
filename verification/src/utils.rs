//! Identifier validation, endpoint URL construction and response
//! classification.

use vstd::prelude::*;

use crate::encode::dec_val;
use crate::encode::form_of;
use crate::encode::is_digit_string;
use crate::encode::json_string_array;
use crate::encode::parse_usize;
use crate::Error;
use vstd::string::StringSliceAdditionalSpecFns;

verus! {

broadcast use vstd::string::group_string_axioms;

/// The characters an identifier (project slug, project ID or version ID)
/// may consist of: ASCII word characters plus a small punctuation set.
pub open spec fn allowed_id_char(c: char) -> bool {
    ||| 'a' <= c <= 'z'
    ||| 'A' <= c <= 'Z'
    ||| '0' <= c <= '9'
    ||| c == '_'
    ||| c == '!'
    ||| c == '@'
    ||| c == '$'
    ||| c == '('
    ||| c == ')'
    ||| c == '`'
    ||| c == '.'
    ||| c == '+'
    ||| c == ','
    ||| c == '"'
    ||| c == '-'
    ||| c == '\''
}

/// A valid identifier: 3 to 64 allowed characters.
pub open spec fn valid_identifier(s: Seq<char>) -> bool {
    &&& 3 <= s.len() <= 64
    &&& forall|i: int| 0 <= i < s.len() ==> allowed_id_char(#[trigger] s[i])
}

/// Whether a single candidate identifier is valid.
pub fn is_valid_identifier(s: &str) -> (b: bool)
    ensures
        b == valid_identifier(s@),
{
    if !s.is_ascii() {
        proof {
            let i = choose|i: int| 0 <= i < s@.len() && !('\0' <= #[trigger] s@[i] <= '\u{7f}');
            assert(!allowed_id_char(s@[i]));
        }
        return false;
    }
    let n = s.unicode_len();
    if n < 3 || n > 64 {
        return false;
    }
    for i in 0..n
        invariant
            s.is_ascii(),
            n == s@.len(),
            forall|j: int| 0 <= j < i ==> allowed_id_char(#[trigger] s@[j]),
    {
        let b = s.get_ascii(i);
        // ASCII codes: letters, digits, and _ ! @ $ ( ) ` . + , " - '
        let ok = (97 <= b && b <= 122) || (65 <= b && b <= 90) || (48 <= b && b <= 57) || b == 95
            || b == 33 || b == 64 || b == 36 || b == 40 || b == 41 || b == 96 || b == 46 || b == 43
            || b == 44 || b == 34 || b == 45 || b == 39;
        proof {
            assert('\0' <= s@[i as int] <= '\u{7f}');
            assert(s@[i as int] as u8 == b);
            assert(ok == allowed_id_char(s@[i as int]));
        }
        if !ok {
            return false;
        }
    }
    true
}

/// Whether every element of a sequence of identifiers is valid.
pub open spec fn all_valid_identifiers(inputs: Seq<Seq<char>>) -> bool {
    forall|i: int| 0 <= i < inputs.len() ==> valid_identifier(#[trigger] inputs[i])
}

/// Checks every supplied identifier against the allowed pattern; the
/// first failure rejects the whole batch.  This is the input-sanitization
/// boundary: it runs before any URL is built from untrusted input.
pub fn check_id_slug(inputs: &Vec<String>) -> (r: Result<(), Error>)
    ensures
        all_valid_identifiers(inputs.deep_view()) ==> r == Ok::<(), Error>(()),
        !all_valid_identifiers(inputs.deep_view()) ==> r == Err::<(), Error>(
            Error::InvalidIDorSlug,
        ),
{
    for i in 0..inputs.len()
        invariant
            forall|j: int| 0 <= j < i ==> valid_identifier(#[trigger] inputs.deep_view()[j]),
    {
        if !is_valid_identifier(inputs[i].as_str()) {
            assert(!valid_identifier(inputs.deep_view()[i as int]));
            return Err(Error::InvalidIDorSlug);
        }
    }
    Ok(())
}

// ---------------------------------------------------------------------
// Endpoint URLs
// ---------------------------------------------------------------------
/// The fixed base: protocol, host and API version prefix.
pub open spec fn base_text() -> Seq<char> {
    "https://api.modrinth.com/v2/"@
}

/// How one identifier character appears in a URL path segment: `"` and
/// the backtick are percent-encoded, every other allowed character is
/// copied.
pub open spec fn seg_char_text(c: char) -> Seq<char> {
    if c == '"' {
        seq!['%', '2', '2']
    } else if c == '`' {
        seq!['%', '6', '0']
    } else {
        seq![c]
    }
}

/// The path-segment encoding of an identifier.
pub open spec fn seg_text(s: Seq<char>) -> Seq<char>
    decreases s.len(),
{
    if s.len() == 0 {
        seq![]
    } else {
        seg_text(s.drop_last()) + seg_char_text(s.last())
    }
}

/// A string acceptable as one path segment: non-empty, all characters
/// from the identifier alphabet.
pub open spec fn seg_ok(s: Seq<char>) -> bool {
    &&& s.len() > 0
    &&& forall|i: int| 0 <= i < s.len() ==> allowed_id_char(#[trigger] s[i])
}

/// The text of segments joined with `/`, each segment encoded.
pub open spec fn joined_text(segs: Seq<Seq<char>>) -> Seq<char>
    decreases segs.len(),
{
    if segs.len() == 0 {
        seq![]
    } else if segs.len() == 1 {
        seg_text(segs[0])
    } else {
        joined_text(segs.drop_last()) + seq!['/'] + seg_text(segs.last())
    }
}

/// The text of two joined segments.
pub proof fn lemma_joined2(a: Seq<char>, b: Seq<char>)
    ensures
        joined_text(seq![a, b]) == seg_text(a) + seq!['/'] + seg_text(b),
{
    let s = seq![a, b];
    assert(s.drop_last() =~= seq![a]);
    assert(s.last() == b);
    assert(joined_text(seq![a]) == seg_text(a));
    assert(joined_text(s) == joined_text(s.drop_last()) + seq!['/'] + seg_text(b));
}

/// The text of three joined segments.
pub proof fn lemma_joined3(a: Seq<char>, b: Seq<char>, c: Seq<char>)
    ensures
        joined_text(seq![a, b, c]) == seg_text(a) + seq!['/'] + seg_text(b) + seq!['/'] + seg_text(
            c,
        ),
{
    let s = seq![a, b, c];
    assert(s.drop_last() =~= seq![a, b]);
    assert(s.last() == c);
    lemma_joined2(a, b);
    assert(joined_text(s) == joined_text(s.drop_last()) + seq!['/'] + seg_text(c));
}

/// The text of four joined segments.
pub proof fn lemma_joined4(a: Seq<char>, b: Seq<char>, c: Seq<char>, d: Seq<char>)
    ensures
        joined_text(seq![a, b, c, d]) == seg_text(a) + seq!['/'] + seg_text(b) + seq!['/']
            + seg_text(c) + seq!['/'] + seg_text(d),
{
    let s = seq![a, b, c, d];
    assert(s.drop_last() =~= seq![a, b, c]);
    assert(s.last() == d);
    lemma_joined3(a, b, c);
    assert(joined_text(s) == joined_text(s.drop_last()) + seq!['/'] + seg_text(d));
}

/// Segment encoding leaves a string without `"` and backticks as it is.
pub proof fn lemma_seg_identity(s: Seq<char>)
    requires
        forall|i: int| 0 <= i < s.len() ==> #[trigger] s[i] != '"' && s[i] != '`',
    ensures
        seg_text(s) == s,
    decreases s.len(),
{
    if s.len() == 0 {
        assert(seg_text(s) =~= s);
    } else {
        lemma_seg_identity(s.drop_last());
        assert(seg_text(s) =~= s);
    }
}

fn append_segment(out: &mut String, seg: &str)
    requires
        seg.is_ascii(),
    ensures
        final(out)@ == old(out)@ + seg_text(seg@),
{
    let n = seg.unicode_len();
    proof {
        assert(seg@.take(0) =~= Seq::<char>::empty());
        assert(out@ =~= old(out)@ + seg_text(seg@.take(0)));
    }
    for i in 0..n
        invariant
            seg.is_ascii(),
            n == seg@.len(),
            out@ == old(out)@ + seg_text(seg@.take(i as int)),
    {
        let b = seg.get_ascii(i);
        proof {
            assert('\0' <= seg@[i as int] <= '\u{7f}');
            assert(seg@[i as int] as u8 == b);
        }
        // ASCII codes: 34 is the double quote, 96 the backtick.
        if b == 34 {
            out.append("%22");
            proof {
                reveal_strlit("%22");
                assert("%22"@ =~= seq!['%', '2', '2']);
            }
        } else if b == 96 {
            out.append("%60");
            proof {
                reveal_strlit("%60");
                assert("%60"@ =~= seq!['%', '6', '0']);
            }
        } else {
            let piece = seg.substring_ascii(i, i + 1);
            out.append(piece);
            proof {
                assert(piece@ =~= seq![seg@[i as int]]);
            }
        }
        proof {
            assert(seg@.take(i + 1).drop_last() =~= seg@.take(i as int));
            assert(seg@.take(i + 1).last() == seg@[i as int]);
            assert(out@ =~= old(out)@ + seg_text(seg@.take(i + 1)));
        }
    }
    proof {
        assert(seg@.take(n as int) =~= seg@);
    }
}

/// An endpoint URL being built: the fixed base joined with path
/// segments, then query parameters.  Once constructed the value is only
/// ever extended, never rewritten.
pub struct EndpointUrl {
    text: String,
    has_query: bool,
}

impl View for EndpointUrl {
    type V = Seq<char>;

    closed spec fn view(&self) -> Seq<char> {
        self.text@
    }
}

/// The separator, encoded name and encoded value appended for one query
/// parameter.
pub open spec fn query_frag(started: bool, name: Seq<char>, value: Seq<char>) -> Seq<char> {
    (if started {
        seq!['&']
    } else {
        seq!['?']
    }) + form_of(name) + seq!['='] + form_of(value)
}

impl EndpointUrl {
    /// Whether a query parameter has been attached already.
    pub closed spec fn query_started(&self) -> bool {
        self.has_query
    }

    /// The fixed base endpoint.
    pub fn api_base() -> (r: EndpointUrl)
        ensures
            r@ == base_text(),
            !r.query_started(),
    {
        EndpointUrl { text: String::from_str("https://api.modrinth.com/v2/"), has_query: false }
    }

    /// The complete request target as text.
    pub fn as_str(&self) -> (r: &str)
        ensures
            r@ == self@,
    {
        self.text.as_str()
    }

    /// Joins every segment onto the URL, separated by `/`: all but the
    /// last act as directory components, the last is the final path
    /// component.
    pub fn join_all(&self, segments: &Vec<String>) -> (r: EndpointUrl)
        requires
            segments@.len() > 0,
            forall|i: int| 0 <= i < segments@.len() ==> seg_ok(#[trigger] segments.deep_view()[i]),
            !self.query_started(),
        ensures
            r@ == self@ + joined_text(segments.deep_view()),
            !r.query_started(),
    {
        let mut text = self.text.clone();
        proof {
            assert(segments.deep_view().take(0) =~= Seq::<Seq<char>>::empty());
            assert(text@ =~= self@ + joined_text(segments.deep_view().take(0)));
        }
        for i in 0..segments.len()
            invariant
                forall|k: int| 0 <= k < segments@.len() ==> seg_ok(
                    #[trigger] segments.deep_view()[k],
                ),
                text@ == self@ + joined_text(segments.deep_view().take(i as int)),
        {
            if i > 0 {
                text.append("/");
                proof {
                    reveal_strlit("/");
                    assert("/"@ =~= seq!['/']);
                }
            }
            let seg = segments[i].as_str();
            proof {
                assert(segments.deep_view()[i as int] == segments@[i as int]@);
                assert(seg_ok(seg@));
                assert forall|k: int| 0 <= k < seg@.len() implies '\0' <= #[trigger] seg@[k]
                    <= '\u{7f}' by {
                    assert(allowed_id_char(seg@[k]));
                }
            }
            append_segment(&mut text, seg);
            proof {
                let pref = segments.deep_view().take(i as int);
                let ext = segments.deep_view().take(i + 1);
                assert(ext.drop_last() =~= pref);
                assert(ext.last() == segments.deep_view()[i as int]);
                if i == 0 {
                    assert(joined_text(ext) == seg_text(ext[0]));
                    assert(text@ =~= self@ + joined_text(ext));
                } else {
                    assert(joined_text(ext) == joined_text(pref) + seq!['/'] + seg_text(
                        ext.last(),
                    ));
                    assert(text@ =~= self@ + joined_text(ext));
                }
            }
        }
        proof {
            assert(segments.deep_view().take(segments@.len() as int) =~= segments.deep_view());
        }
        EndpointUrl { text, has_query: self.has_query }
    }

    /// Appends one query parameter, form-encoding the name and the value.
    pub fn with_query(self, name: &str, value: &str) -> (r: EndpointUrl)
        ensures
            r@ == self@ + query_frag(self.query_started(), name@, value@),
            r.query_started(),
    {
        let mut text = self.text;
        if self.has_query {
            text.append("&");
            proof {
                reveal_strlit("&");
                assert("&"@ =~= seq!['&']);
            }
        } else {
            text.append("?");
            proof {
                reveal_strlit("?");
                assert("?"@ =~= seq!['?']);
            }
        }
        let encoded_name = crate::encode::form_encode(name);
        text.append(encoded_name.as_str());
        text.append("=");
        proof {
            reveal_strlit("=");
            assert("="@ =~= seq!['=']);
        }
        let encoded_value = crate::encode::form_encode(value);
        text.append(encoded_value.as_str());
        proof {
            assert(text@ =~= self@ + query_frag(self.query_started(), name@, value@));
        }
        EndpointUrl { text, has_query: true }
    }

    /// Appends one query parameter whose value is the JSON text of a
    /// list of strings.
    pub fn with_query_json(self, name: &str, items: &Vec<String>) -> (r: EndpointUrl)
        ensures
            r@ == self@ + query_frag(
                self.query_started(),
                name@,
                json_string_array(items.deep_view()),
            ),
            r.query_started(),
    {
        let json = crate::encode::json_of_strings(items);
        self.with_query(name, json.as_str())
    }

    /// Appends a JSON list query parameter when a value is present; a
    /// no-op otherwise.
    pub fn add_optional_query_json(self, name: &str, items: &Option<Vec<String>>) -> (r:
        EndpointUrl)
        ensures
            (match items {
                Some(v) => r@ == self@ + query_frag(
                    self.query_started(),
                    name@,
                    json_string_array(v.deep_view()),
                ) && r.query_started(),
                None => r == self,
            }),
    {
        match items {
            Some(v) => self.with_query_json(name, v),
            None => self,
        }
    }

    /// Appends a boolean query parameter when a value is present; a
    /// no-op otherwise.
    pub fn add_optional_query_bool(self, name: &str, value: &Option<bool>) -> (r: EndpointUrl)
        ensures
            (match value {
                Some(b) => r@ == self@ + query_frag(
                    self.query_started(),
                    name@,
                    crate::encode::bool_text(*b),
                ) && r.query_started(),
                None => r == self,
            }),
    {
        match value {
            Some(b) => {
                let text = crate::encode::bool_to_string(*b);
                self.with_query(name, text.as_str())
            },
            None => self,
        }
    }
}

// ---------------------------------------------------------------------
// Response classification
// ---------------------------------------------------------------------
/// The view of an optional header value.
pub open spec fn opt_view(h: Option<&str>) -> Option<Seq<char>> {
    match h {
        Some(s) => Some(s@),
        None => None,
    }
}

/// The decision table for a completed request: 410 means the API
/// version is retired; 429 asks the caller to back off for the number
/// of seconds in the reset header (a missing or unparsable header is a
/// broken API contract, surfaced as a typed error); any other 4xx/5xx
/// is a plain HTTP failure; everything else proceeds to body parsing.
pub open spec fn classification(status: u16, reset_header: Option<Seq<char>>) -> Result<
    (),
    Error,
> {
    if status == 410 {
        Err(Error::ApiDeprecated)
    } else if status == 429 {
        match reset_header {
            Some(h) => if is_digit_string(h) && dec_val(h) <= usize::MAX {
                Err(Error::RateLimitExceeded(dec_val(h) as usize))
            } else {
                Err(Error::MalformedRateLimitHeader)
            },
            None => Err(Error::MalformedRateLimitHeader),
        }
    } else if 400 <= status <= 599 {
        Err(Error::HttpStatus(status))
    } else {
        Ok(())
    }
}

/// Maps the status code of a completed request, together with the
/// rate-limit reset header if one came, to the typed outcome.
pub fn classify_response(status: u16, rate_limit_reset: Option<&str>) -> (r: Result<(), Error>)
    ensures
        r == classification(status, opt_view(rate_limit_reset)),
{
    if status == 410 {
        Err(Error::ApiDeprecated)
    } else if status == 429 {
        match rate_limit_reset {
            Some(h) => match parse_usize(h) {
                Some(seconds) => Err(Error::RateLimitExceeded(seconds)),
                None => Err(Error::MalformedRateLimitHeader),
            },
            None => Err(Error::MalformedRateLimitHeader),
        }
    } else if 400 <= status && status <= 599 {
        Err(Error::HttpStatus(status))
    } else {
        Ok(())
    }
}

} // verus!

