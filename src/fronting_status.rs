//! The fronting status formatter: turns the current fronters into one status
//! line that fits a platform's length limit and character set.

use vstd::prelude::*;
use vstd::utf8::encode_utf8;
use crate::plurality::Fronter;
use crate::text::{
    is_white_space_spec, lemma_words_nonempty_after_word_char, words,
    collapse_white_space, collapse_white_space_of, decimal, decimal_of, join, join_of,
    truncate_chars, truncated, views,
};

verus! {

/// Whether the ISO-8859-15 (Latin-9) character set holds `c`: ASCII, the C1
/// controls, the Latin-1 letters and signs that Latin-9 kept, and the eight
/// characters it put in place of the others.
pub open spec fn latin9_encodable(c: char) -> bool {
    let u = c as u32;
    u <= 0xA3 || u == 0xA5 || u == 0xA7 || (0xA9 <= u && u <= 0xB3) || (0xB5 <= u && u <= 0xB7)
        || (0xB9 <= u && u <= 0xBB) || (0xBF <= u && u <= 0xFF) || u == 0x152 || u == 0x153 || u
        == 0x160 || u == 0x161 || u == 0x178 || u == 0x17D || u == 0x17E || u == 0x20AC
}

/// The characters of `s` that Latin-9 holds, in order.
pub open spec fn latin9_filter(s: Seq<char>) -> Seq<char>
    decreases s.len(),
{
    if s.len() == 0 {
        seq![]
    } else if latin9_encodable(s.last()) {
        latin9_filter(s.drop_last()).push(s.last())
    } else {
        latin9_filter(s.drop_last())
    }
}

/// A name as the social VR platform can show it: characters outside Latin-9
/// dropped, whitespace runs collapsed to one space, both ends trimmed.
pub open spec fn clean_name_spec(s: Seq<char>) -> Seq<char> {
    collapse_white_space(latin9_filter(s))
}

/// A word of a cleaned name: not empty, no whitespace, only Latin-9.
pub open spec fn clean_word(w: Seq<char>) -> bool {
    &&& w.len() > 0
    &&& forall|j: int| 0 <= j < w.len() ==> !is_white_space_spec(#[trigger] w[j]) && latin9_encodable(w[j])
}

/// A tidy status name: only Latin-9 characters, no whitespace but single
/// spaces between words, none at either end.
pub open spec fn tidy_name(r: Seq<char>) -> bool {
    &&& forall|i: int| 0 <= i < r.len() ==> #[trigger] latin9_encodable(r[i])
    &&& forall|i: int| 0 <= i < r.len() && #[trigger] is_white_space_spec(r[i]) ==> r[i] == ' '
    &&& r.len() > 0 ==> !is_white_space_spec(r[0]) && !is_white_space_spec(r[r.len() - 1])
    &&& forall|i: int|
        0 <= i < r.len() - 1 ==> !(#[trigger] is_white_space_spec(r[i]) && is_white_space_spec(
            r[i + 1],
        ))
}

proof fn lemma_latin9_filter_encodable(s: Seq<char>)
    ensures
        forall|i: int| 0 <= i < latin9_filter(s).len() ==> latin9_encodable(#[trigger] latin9_filter(s)[i]),
    decreases s.len(),
{
    if s.len() > 0 {
        let f = latin9_filter(s.drop_last());
        lemma_latin9_filter_encodable(s.drop_last());
        if latin9_encodable(s.last()) {
            assert forall|i: int| 0 <= i < latin9_filter(s).len() implies latin9_encodable(
                #[trigger] latin9_filter(s)[i],
            ) by {
                if i < f.len() {
                    assert(latin9_filter(s)[i] == f[i]);
                }
            }
        }
    }
}

proof fn lemma_words_clean(t: Seq<char>)
    requires
        forall|i: int| 0 <= i < t.len() ==> latin9_encodable(#[trigger] t[i]),
    ensures
        forall|k: int| 0 <= k < words(t).len() ==> clean_word(#[trigger] words(t)[k]),
    decreases t.len(),
{
    if t.len() > 0 {
        let rest = t.drop_last();
        assert forall|i: int| 0 <= i < rest.len() implies latin9_encodable(#[trigger] rest[i]) by {
            assert(rest[i] == t[i]);
        }
        lemma_words_clean(rest);
        let w = words(rest);
        let c = t.last();
        assert(latin9_encodable(t[t.len() - 1]));
        if is_white_space_spec(c) {
        } else if t.len() > 1 && !is_white_space_spec(t[t.len() - 2]) {
            assert(rest.last() == t[t.len() - 2]);
            lemma_words_nonempty_after_word_char(rest);
            let last = w.last().push(c);
            assert(clean_word(w[w.len() - 1]));
            assert(clean_word(last));
            let v = w.drop_last().push(last);
            assert forall|k: int| 0 <= k < v.len() implies clean_word(#[trigger] v[k]) by {
                if k < v.len() - 1 {
                    assert(v[k] == w[k]);
                }
            }
        } else {
            let v = w.push(seq![c]);
            assert(clean_word(seq![c]));
            assert forall|k: int| 0 <= k < v.len() implies clean_word(#[trigger] v[k]) by {
                if k < v.len() - 1 {
                    assert(v[k] == w[k]);
                }
            }
        }
    }
}

proof fn lemma_join_clean_words(ws: Seq<Seq<char>>)
    requires
        forall|k: int| 0 <= k < ws.len() ==> clean_word(#[trigger] ws[k]),
    ensures
        tidy_name(join(ws, seq![' '])),
        ws.len() > 0 ==> join(ws, seq![' ']).len() > 0,
    decreases ws.len(),
{
    if ws.len() == 1 {
        assert(clean_word(ws[0]));
    } else if ws.len() > 1 {
        let rest = ws.drop_last();
        assert forall|k: int| 0 <= k < rest.len() implies clean_word(#[trigger] rest[k]) by {
            assert(rest[k] == ws[k]);
        }
        lemma_join_clean_words(rest);
        let a = join(rest, seq![' ']);
        let b = ws.last();
        assert(clean_word(ws[ws.len() - 1]));
        let r = a + seq![' '] + b;
        assert(join(ws, seq![' ']) == r);
        assert forall|i: int| 0 <= i < r.len() implies #[trigger] latin9_encodable(r[i]) by {
            if i < a.len() {
                assert(r[i] == a[i]);
            } else if i > a.len() {
                assert(r[i] == b[i - a.len() - 1]);
            }
        }
        assert forall|i: int| 0 <= i < r.len() && #[trigger] is_white_space_spec(r[i]) implies r[i] == ' ' by {
            if i < a.len() {
                assert(r[i] == a[i]);
            } else if i > a.len() {
                assert(r[i] == b[i - a.len() - 1]);
            }
        }
        assert(r[0] == a[0]);
        assert(r[r.len() - 1] == b[b.len() - 1]);
        assert forall|i: int|
            0 <= i < r.len() - 1 implies !(#[trigger] is_white_space_spec(r[i]) && is_white_space_spec(r[i + 1])) by {
            if i < a.len() - 1 {
                assert(r[i] == a[i] && r[i + 1] == a[i + 1]);
            } else if i == a.len() - 1 {
                assert(r[i] == a[a.len() - 1]);
            } else if i == a.len() {
                assert(r[i + 1] == b[0]);
            } else {
                assert(r[i] == b[i - a.len() - 1] && r[i + 1] == b[i + 1 - a.len() - 1]);
            }
        }
    }
}

/// Every cleaned name is tidy: only Latin-9 characters remain, and its only
/// whitespace is single spaces between words.
pub proof fn lemma_clean_name_is_tidy(s: Seq<char>)
    ensures
        tidy_name(clean_name_spec(s)),
{
    let t = latin9_filter(s);
    lemma_latin9_filter_encodable(s);
    lemma_words_clean(t);
    lemma_join_clean_words(words(t));
}

/// Relies on encoding_rs's ISO-8859-15 encoder: `encode_from_utf8` reports
/// replacements exactly when the input holds a character outside the
/// encoding's table (ASCII plus its 128 upper code points).
#[verifier::external_body]
fn latin9_needs_replacement(c: char) -> (r: bool)
    ensures
        r == !latin9_encodable(c),
{
    let mut utf8 = [0u8; 4];
    let mut out = [0u8; 20];
    let (_, _, _, had_replacements) = encoding_rs::ISO_8859_15.new_encoder().encode_from_utf8(
        c.encode_utf8(&mut utf8),
        &mut out,
        true,
    );
    had_replacements
}

/// Keeps the characters of `s` that Latin-9 can encode.
pub fn latin9_filter_of(s: &str) -> (r: String)
    ensures
        r@ == latin9_filter(s@),
{
    let n = s.unicode_len();
    let mut out = String::new();
    let mut i: usize = 0;
    while i < n
        invariant
            n == s@.len(),
            i <= n,
            out@ == latin9_filter(s@.take(i as int)),
        decreases n - i,
    {
        let c = s.get_char(i);
        assert(s@.take(i + 1).drop_last() =~= s@.take(i as int));
        if !latin9_needs_replacement(c) {
            let piece = s.substring_char(i, i + 1);
            assert(piece@ =~= seq![c]);
            out.append(piece);
            assert(out@ =~= latin9_filter(s@.take(i + 1)));
        }
        i = i + 1;
    }
    assert(s@.take(n as int) =~= s@);
    out
}

/// Strips the characters that the social VR platform's status cannot show and
/// tidies the whitespace that this leaves behind.
pub fn clean_name_for_vrchat_status(dirty_name: &str) -> (r: String)
    ensures
        r@ == clean_name_spec(dirty_name@),
        tidy_name(r@),
{
    proof {
        lemma_clean_name_is_tidy(dirty_name@);
    }
    let filtered = latin9_filter_of(dirty_name);
    collapse_white_space_of(filtered.as_str())
}

/// The longest status the social VR platform accepts, in bytes.
pub const VRCHAT_MAX_ALLOWED_STATUS_LENGTH: usize = 23;

/// The longest custom status the chat platform accepts, in bytes.
pub const DISCORD_STATUS_MAX_LENGTH: usize = 128;

/// Which characters a platform can show.
#[derive(Debug, Clone, Copy, PartialEq, Eq, Structural)]
pub enum CleanForPlatform {
    /// Every character is shown as it is.
    NoClean,
    /// Only Latin-9 characters are shown (the social VR platform).
    VRChat,
}

/// How one platform wants its status line built.
#[derive(Debug, Clone)]
pub struct FrontingFormat {
    /// The longest status in bytes, or `None` for no limit.
    pub max_length: Option<usize>,
    pub cleaning: CleanForPlatform,
    pub prefix: String,
    /// The name shown when nobody is fronting.
    pub status_if_no_fronters: String,
    /// How many characters of each name the truncated status keeps.
    pub truncate_names_to_length_if_status_too_long: usize,
}

/// The length of `s` in UTF-8 bytes, as `str::len` reports it.
pub open spec fn byte_len(s: Seq<char>) -> usize {
    encode_utf8(s).len() as usize
}

/// A name after the platform's cleaning policy.
pub open spec fn clean_for(cleaning: CleanForPlatform, name: Seq<char>) -> Seq<char> {
    match cleaning {
        CleanForPlatform::NoClean => name,
        CleanForPlatform::VRChat => clean_name_spec(name),
    }
}

/// The names a status lists: the text for nobody fronting when the list is
/// empty, else each fronter's preferred name; all of them cleaned.
pub open spec fn status_names(format: FrontingFormat, fronts: Seq<Fronter>) -> Seq<Seq<char>> {
    if fronts.len() == 0 {
        seq![clean_for(format.cleaning, format.status_if_no_fronters@)]
    } else {
        Seq::new(fronts.len(), |i: int| clean_for(format.cleaning, fronts[i].preferred_name()))
    }
}

/// `prefix`, a space, then the names separated by a comma and a space.
pub open spec fn long_status(prefix: Seq<char>, names: Seq<Seq<char>>) -> Seq<char> {
    prefix + seq![' '] + join(names, seq![',', ' '])
}

/// `prefix` directly followed by the names separated by commas.
pub open spec fn short_status(prefix: Seq<char>, names: Seq<Seq<char>>) -> Seq<char> {
    prefix + join(names, seq![','])
}

/// As the short status, with each name cut to its first `n` characters.
pub open spec fn truncated_status(prefix: Seq<char>, names: Seq<Seq<char>>, n: nat) -> Seq<char> {
    prefix + join(names.map_values(|s: Seq<char>| truncated(s, n)), seq![','])
}

/// `prefix`, a space, the number of names and `#`.
pub open spec fn count_status(prefix: Seq<char>, count: nat) -> Seq<char> {
    prefix + seq![' '] + decimal(count) + seq!['#']
}

/// The four candidate statuses, from the most to the least informative.
pub open spec fn status_candidates(format: FrontingFormat, names: Seq<Seq<char>>) -> Seq<
    Seq<char>,
> {
    seq![
        long_status(format.prefix@, names),
        short_status(format.prefix@, names),
        truncated_status(format.prefix@, names, format.truncate_names_to_length_if_status_too_long as nat),
        count_status(format.prefix@, names.len()),
    ]
}

/// Whether `s` is within the limit, if there is one.
pub open spec fn fits(s: Seq<char>, max_length: Option<usize>) -> bool {
    match max_length {
        None => true,
        Some(l) => byte_len(s) <= l,
    }
}

/// The longest of `candidates` within the limit, the earlier (more preferred)
/// one of two equally long; `None` when none is within it.
pub open spec fn longest_fitting(candidates: Seq<Seq<char>>, max_length: Option<usize>) -> Option<
    Seq<char>,
>
    decreases candidates.len(),
{
    if candidates.len() == 0 {
        None
    } else {
        let before = longest_fitting(candidates.drop_last(), max_length);
        let c = candidates.last();
        if fits(c, max_length) && (before is None || byte_len(before->0) < byte_len(c)) {
            Some(c)
        } else {
            before
        }
    }
}

/// What `longest_fitting` picks is one of the candidates and within the limit;
/// it picks nothing only when no candidate is within it.
pub proof fn lemma_longest_fitting_fits(candidates: Seq<Seq<char>>, max_length: Option<usize>)
    ensures
        match longest_fitting(candidates, max_length) {
            Some(s) => fits(s, max_length) && candidates.contains(s),
            None => forall|i: int| 0 <= i < candidates.len() ==> !fits(#[trigger] candidates[i], max_length),
        },
    decreases candidates.len(),
{
    if candidates.len() > 0 {
        let rest = candidates.drop_last();
        lemma_longest_fitting_fits(rest, max_length);
        match longest_fitting(rest, max_length) {
            Some(s) => {
                let i = choose|i: int| 0 <= i < rest.len() && rest[i] == s;
                assert(candidates[i] == s);
            },
            None => {
                assert forall|i: int| 0 <= i < candidates.len() - 1 implies !fits(
                    #[trigger] candidates[i],
                    max_length,
                ) by {
                    assert(candidates[i] == rest[i]);
                }
            },
        }
        assert(candidates[candidates.len() - 1] == candidates.last());
    }
}

/// The status line for `fronts` in `format`: the long candidate when there is
/// no limit, else the longest candidate within it, else the empty string.
pub open spec fn format_spec(format: FrontingFormat, fronts: Seq<Fronter>) -> Seq<char> {
    let candidates = status_candidates(format, status_names(format, fronts));
    match format.max_length {
        None => candidates[0],
        Some(_) => match longest_fitting(candidates, format.max_length) {
            Some(s) => s,
            None => seq![],
        },
    }
}

/// The names to list, cleaned as `format` asks.
pub fn collect_clean_fronter_names(format: &FrontingFormat, fronts: &Vec<Fronter>) -> (r: Vec<
    String,
>)
    ensures
        views(r@) == status_names(*format, fronts@),
{
    let mut names: Vec<String> = Vec::new();
    if fronts.len() == 0 {
        let name = match format.cleaning {
            CleanForPlatform::NoClean => format.status_if_no_fronters.clone(),
            CleanForPlatform::VRChat => clean_name_for_vrchat_status(
                format.status_if_no_fronters.as_str(),
            ),
        };
        names.push(name);
    } else {
        let mut i: usize = 0;
        while i < fronts.len()
            invariant
                i <= fronts.len(),
                names.len() == i,
                forall|j: int|
                    0 <= j < i ==> #[trigger] names@[j]@ == clean_for(
                        format.cleaning,
                        fronts@[j].preferred_name(),
                    ),
            decreases fronts.len() - i,
        {
            let preferred = fronts[i].preferred_vrchat_status_name();
            let name = match format.cleaning {
                CleanForPlatform::NoClean => preferred,
                CleanForPlatform::VRChat => clean_name_for_vrchat_status(preferred.as_str()),
            };
            names.push(name);
            i = i + 1;
        }
    }
    assert(views(names@) =~= status_names(*format, fronts@));
    names
}

/// The four candidate statuses for `names`, from the most to the least informative.
pub fn compute_status_strings_of_decreasing_lengths_for_aesthetics_and_information_tradeoff(
    format: &FrontingFormat,
    names: &Vec<String>,
) -> (r: Vec<String>)
    ensures
        views(r@) == status_candidates(*format, views(names@)),
{
    let prefix = format.prefix.as_str();
    proof {
        reveal_strlit(" ");
        reveal_strlit(", ");
        reveal_strlit(",");
        reveal_strlit("#");
    }
    assert(", "@ =~= seq![',', ' ']);
    assert(","@ =~= seq![',']);
    let mut long = prefix.to_owned();
    long.append(" ");
    let long_names = join_of(names, ", ");
    long.append(long_names.as_str());

    let mut short = prefix.to_owned();
    let short_names = join_of(names, ",");
    short.append(short_names.as_str());

    let n = format.truncate_names_to_length_if_status_too_long;
    let mut cut: Vec<String> = Vec::new();
    let mut i: usize = 0;
    while i < names.len()
        invariant
            i <= names.len(),
            cut.len() == i,
            forall|j: int|
                0 <= j < i ==> #[trigger] cut@[j]@ == truncated(names@[j]@, n as nat),
        decreases names.len() - i,
    {
        cut.push(truncate_chars(names[i].as_str(), n));
        i = i + 1;
    }
    assert(views(cut@) =~= views(names@).map_values(|s: Seq<char>| truncated(s, n as nat)));
    let mut truncated_line = prefix.to_owned();
    let cut_names = join_of(&cut, ",");
    truncated_line.append(cut_names.as_str());

    let mut count = prefix.to_owned();
    count.append(" ");
    let digits = decimal_of(names.len());
    count.append(digits.as_str());
    count.append("#");

    let ghost cands = status_candidates(*format, views(names@));
    assert(long@ =~= cands[0]);
    assert(short@ =~= cands[1]);
    assert(truncated_line@ =~= cands[2]);
    assert(count@ =~= cands[3]);
    let mut r: Vec<String> = Vec::new();
    r.push(long);
    r.push(short);
    r.push(truncated_line);
    r.push(count);
    assert(views(r@) =~= cands);
    r
}

/// The longest of `status_strings` within `format`'s limit; the earlier of two
/// equally long ones; the empty string when none is within it.
pub fn pick_longest_string_within_vrchat_status_length_limit(
    format: &FrontingFormat,
    status_strings: &Vec<String>,
) -> (r: String)
    ensures
        r@ == match longest_fitting(views(status_strings@), format.max_length) {
            Some(s) => s,
            None => seq![],
        },
{
    let mut best: Option<usize> = None;
    let mut best_len: usize = 0;
    let mut i: usize = 0;
    while i < status_strings.len()
        invariant
            i <= status_strings.len(),
            match best {
                None => longest_fitting(views(status_strings@.take(i as int)), format.max_length)
                    is None,
                Some(j) => j < i && longest_fitting(
                    views(status_strings@.take(i as int)),
                    format.max_length,
                ) == Some(status_strings@[j as int]@) && best_len == byte_len(
                    status_strings@[j as int]@,
                ),
            },
        decreases status_strings.len() - i,
    {
        let ghost pre = views(status_strings@.take(i as int));
        assert(views(status_strings@.take(i + 1)).drop_last() =~= pre);
        let len = status_strings[i].as_str().len();
        let fits_now = match format.max_length {
            None => true,
            Some(l) => len <= l,
        };
        if fits_now && (best.is_none() || best_len < len) {
            best = Some(i);
            best_len = len;
        }
        i = i + 1;
    }
    assert(status_strings@.take(status_strings.len() as int) =~= status_strings@);
    match best {
        Some(j) => status_strings[j].clone(),
        None => String::new(),
    }
}

/// The status line that shows `fronts` on a platform that wants `format`.
pub fn format_fronting_status(format: &FrontingFormat, fronts: &Vec<Fronter>) -> (r: String)
    ensures
        r@ == format_spec(*format, fronts@),
        format.max_length is Some ==> r@.len() == 0 || fits(r@, format.max_length),
{
    let names = collect_clean_fronter_names(format, fronts);
    let candidates =
        compute_status_strings_of_decreasing_lengths_for_aesthetics_and_information_tradeoff(
        format,
        &names,
    );
    proof {
        lemma_longest_fitting_fits(views(candidates@), format.max_length);
    }
    match format.max_length {
        None => candidates[0].clone(),
        Some(_) => pick_longest_string_within_vrchat_status_length_limit(format, &candidates),
    }
}

/// Formatting is deterministic: two calls with the same format and fronters
/// give the same status line.
pub proof fn lemma_format_is_deterministic(
    format: FrontingFormat,
    fronts: Seq<Fronter>,
    first: Seq<char>,
    second: Seq<char>,
)
    requires
        first == format_spec(format, fronts),
        second == format_spec(format, fronts),
    ensures
        first == second,
{
}

} // verus!
