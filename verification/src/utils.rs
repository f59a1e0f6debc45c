//! Splitting the combined explorer/surveyor free-text field into its two
//! capture groups and then into the comma-separated names each group holds.
use vstd::prelude::*;

verus! {

/// What the explorer/surveyor pattern captures from a free-text field:
/// the text between the Explorer markers and the text between the
/// Surveyor markers, when the pattern matches. The outcome is a function
/// of the text alone.
pub uninterp spec fn explorer_split(s: Seq<char>) -> Option<(Seq<char>, Seq<char>)>;

/// Relies on regex::Regex::new — the fixed pattern is valid, so the
/// constructor cannot fail — and on regex::Regex::captures: whether and
/// what the explorer/surveyor pattern captures depends on the text alone.
#[verifier::external_body]
fn captures_explorer_surveyor(raw: &str) -> (r: Option<(Vec<char>, Vec<char>)>)
    ensures
        match r {
            Some(p) => explorer_split(raw@) == Some((p.0@, p.1@)),
            None => explorer_split(raw@) is None,
        },
{
    let pattern = regex::Regex::new(
        r"<Explorer>(?<explorers>.*)</Explorer><Surveyor>(?<surveyors>.*)</Surveyor>",
    ).unwrap();
    pattern.captures(raw).map(
        |cap| (cap["explorers"].chars().collect(), cap["surveyors"].chars().collect()),
    )
}

/// Relies on String::push: appends one character.
#[verifier::external_body]
fn push_char(s: &mut String, c: char)
    ensures
        final(s)@ == old(s)@.push(c),
{
    s.push(c);
}

/// Builds a string out of its characters.
fn chars_to_string(v: &[char]) -> (r: String)
    ensures
        r@ == v@,
{
    let mut out = String::new();
    let mut i: usize = 0;
    while i < v.len()
        invariant
            i <= v@.len(),
            out@ == v@.take(i as int),
        decreases v.len() - i,
    {
        push_char(&mut out, v[i]);
        assert(out@ =~= v@.take(i + 1));
        i += 1;
    }
    assert(v@.take(v@.len() as int) =~= v@);
    out
}

/// The whitespace characters stripped from the edges of each name.
pub open spec fn is_space(c: char) -> bool {
    c == ' ' || c == '\t' || c == '\n' || c == '\r'
}

fn space_char(c: char) -> (r: bool)
    ensures
        r == is_space(c),
{
    c == ' ' || c == '\t' || c == '\n' || c == '\r'
}

pub open spec fn trim_chars_start(s: Seq<char>) -> Seq<char>
    decreases s.len(),
{
    if s.len() > 0 && is_space(s.first()) {
        trim_chars_start(s.drop_first())
    } else {
        s
    }
}

pub open spec fn trim_chars_end(s: Seq<char>) -> Seq<char>
    decreases s.len(),
{
    if s.len() > 0 && is_space(s.last()) {
        trim_chars_end(s.drop_last())
    } else {
        s
    }
}

/// A name with the whitespace at both edges removed.
pub open spec fn trim_chars(s: Seq<char>) -> Seq<char> {
    trim_chars_end(trim_chars_start(s))
}

/// The least index `j >= i` holding a comma, if any.
pub open spec fn find_comma(s: Seq<char>, i: int) -> Option<int>
    decreases s.len() - i when 0 <= i
{
    if i >= s.len() {
        None
    } else if s[i] == ',' {
        Some(i)
    } else {
        find_comma(s, i + 1)
    }
}

/// The comma-separated pieces of `s[i..]`, each trimmed; a text without
/// commas is one piece, so the result is never empty.
pub open spec fn split_trimmed_from(s: Seq<char>, i: int) -> Seq<Seq<char>>
    decreases s.len() - i when 0 <= i
{
    match find_comma(s, i) {
        None => seq![trim_chars(s.subrange(i, s.len() as int))],
        Some(j) => {
            if !(i <= j < s.len()) {
                Seq::empty()
            } else {
                seq![trim_chars(s.subrange(i, j))] + split_trimmed_from(s, j + 1)
            }
        },
    }
}

fn find_comma_at(v: &[char], from: usize) -> (r: Option<usize>)
    requires
        from <= v@.len(),
    ensures
        match r {
            Some(j) => find_comma(v@, from as int) == Some(j as int) && from <= j < v@.len(),
            None => find_comma(v@, from as int) is None,
        },
{
    let mut i: usize = from;
    while i < v.len()
        invariant
            from <= i <= v@.len(),
            find_comma(v@, from as int) == find_comma(v@, i as int),
        decreases v.len() - i,
    {
        if v[i] == ',' {
            return Some(i);
        }
        i += 1;
    }
    None
}

proof fn lemma_trim_chars_start_skip(s: Seq<char>, a: int)
    requires
        0 <= a <= s.len(),
        forall|k: int| 0 <= k < a ==> is_space(s[k]),
        a == s.len() || !is_space(s[a]),
    ensures
        trim_chars_start(s) == s.skip(a),
    decreases a,
{
    if a == 0 {
        assert(s.skip(0) =~= s);
    } else {
        assert(is_space(s.first()));
        lemma_trim_chars_start_skip(s.drop_first(), a - 1);
        assert(s.drop_first().skip(a - 1) =~= s.skip(a));
    }
}

/// Extracts `trim_chars(v[a..b])` as a string.
fn trimmed_name(v: &[char], a: usize, b: usize) -> (r: String)
    requires
        a <= b <= v@.len(),
    ensures
        r@ == trim_chars(v@.subrange(a as int, b as int)),
{
    let ghost t = v@.subrange(a as int, b as int);
    let mut i: usize = a;
    while i < b && space_char(v[i])
        invariant
            a <= i <= b,
            b <= v@.len(),
            forall|k: int| a <= k < i ==> is_space(v@[k]),
        decreases b - i,
    {
        i += 1;
    }
    proof {
        lemma_trim_chars_start_skip(t, i - a);
        assert(t.skip(i - a) =~= v@.subrange(i as int, b as int));
    }
    let mut piece: Vec<char> = Vec::new();
    let mut k: usize = i;
    while k < b
        invariant
            i <= k <= b <= v@.len(),
            piece@ == v@.subrange(i as int, k as int),
        decreases b - k,
    {
        piece.push(v[k]);
        assert(piece@ =~= v@.subrange(i as int, k + 1 as int));
        k += 1;
    }
    while piece.len() > 0 && space_char(piece[piece.len() - 1])
        invariant
            trim_chars_end(v@.subrange(i as int, b as int)) == trim_chars_end(piece@),
        decreases piece.len(),
    {
        let ghost before = piece@;
        piece.pop();
        assert(piece@ =~= before.drop_last());
    }
    assert(trim_chars_end(piece@) == piece@);
    chars_to_string(piece.as_slice())
}

/// Splits on commas and trims every piece.
fn split_and_trim(v: &[char]) -> (r: Vec<String>)
    ensures
        r.deep_view() == split_trimmed_from(v@, 0),
{
    let n = v.len();
    let mut out: Vec<String> = Vec::new();
    let mut pos: usize = 0;
    loop
        invariant
            n == v@.len(),
            pos <= n,
            out.deep_view() + split_trimmed_from(v@, pos as int) == split_trimmed_from(v@, 0),
        decreases v@.len() - pos + 1,
    {
        let ghost before = out.deep_view();
        match find_comma_at(v, pos) {
            Some(j) => {
                let piece = trimmed_name(v, pos, j);
                out.push(piece);
                proof {
                    assert(out.deep_view() =~= before.push(piece@));
                    assert(before.push(piece@) + split_trimmed_from(v@, j + 1) =~= before + (seq![
                        piece@,
                    ] + split_trimmed_from(v@, j + 1)));
                }
                pos = j + 1;
            },
            None => {
                let piece = trimmed_name(v, pos, n);
                out.push(piece);
                proof {
                    assert(out.deep_view() =~= before.push(piece@));
                    assert(split_trimmed_from(v@, pos as int) =~= seq![piece@]);
                    assert(before.push(piece@) =~= before + seq![piece@]);
                }
                return out;
            },
        }
    }
}

/// Splits the combined explorer/surveyor text of a station record.
pub struct SplitExplorers {}

impl Default for SplitExplorers {
    fn default() -> (r: SplitExplorers)
        ensures
            r == (SplitExplorers {  }),
    {
        SplitExplorers {  }
    }
}

impl SplitExplorers {
    /// The raw text of the two capture groups, when the pattern matches.
    pub fn split_explorers_string(&self, raw: &str) -> (r: Option<(String, String)>)
        ensures
            match r {
                Some(p) => explorer_split(raw@) == Some((p.0@, p.1@)),
                None => explorer_split(raw@) is None,
            },
    {
        match captures_explorer_surveyor(raw) {
            None => None,
            Some((e, s)) => Some((chars_to_string(e.as_slice()), chars_to_string(s.as_slice()))),
        }
    }

    /// The explorer and surveyor names: each capture group split on commas,
    /// every name trimmed. Empty input, or input the pattern does not
    /// match, yields nothing.
    pub fn split_explorers(&self, raw: &str) -> (r: Option<(Vec<String>, Vec<String>)>)
        ensures
            match r {
                Some(p) => match explorer_split(raw@) {
                    Some(q) => raw@.len() > 0 && p.0.deep_view() == split_trimmed_from(q.0, 0)
                        && p.1.deep_view() == split_trimmed_from(q.1, 0),
                    None => false,
                },
                None => raw@.len() == 0 || explorer_split(raw@) is None,
            },
    {
        if raw.is_empty() {
            return None;
        }
        match captures_explorer_surveyor(raw) {
            None => None,
            Some((e, s)) => Some(
                (split_and_trim(e.as_slice()), split_and_trim(s.as_slice())),
            ),
        }
    }
}

} // verus!
