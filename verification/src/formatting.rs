// Reading parameter values that the user types: the unit text around the
// number is cut away, leaving the text of the number itself.
use vstd::prelude::*;

use crate::text::chars_of;

verus! {

/// Whether `c` has the Unicode White_Space property: tab through carriage
/// return, space, next line, no-break space, Ogham space mark, the spaces
/// U+2000 ..= U+200A, line and paragraph separators, narrow no-break space,
/// medium mathematical space and ideographic space.
pub open spec fn is_white_space(c: char) -> bool {
    let u = c as u32;
    ||| 0x9 <= u <= 0xD
    ||| u == 0x20
    ||| u == 0x85
    ||| u == 0xA0
    ||| u == 0x1680
    ||| 0x2000 <= u <= 0x200A
    ||| u == 0x2028
    ||| u == 0x2029
    ||| u == 0x202F
    ||| u == 0x205F
    ||| u == 0x3000
}

/// `char::is_whitespace`, which its documentation defines as having the
/// Unicode White_Space property; the contract lists the characters with that
/// property.
#[verifier::external_body]
fn is_whitespace(c: char) -> (white: bool)
    ensures
        white == is_white_space(c),
{
    c.is_whitespace()
}

/// `s` without its leading white space.
pub open spec fn trim_start_spec(s: Seq<char>) -> Seq<char>
    decreases s.len(),
{
    if s.len() > 0 && is_white_space(s[0]) {
        trim_start_spec(s.drop_first())
    } else {
        s
    }
}

/// `s` without its trailing white space.
pub open spec fn trim_end_spec(s: Seq<char>) -> Seq<char>
    decreases s.len(),
{
    if s.len() > 0 && is_white_space(s.last()) {
        trim_end_spec(s.drop_last())
    } else {
        s
    }
}

/// `s` without leading and trailing white space, as `str::trim` gives it.
pub open spec fn trim_spec(s: Seq<char>) -> Seq<char> {
    trim_end_spec(trim_start_spec(s))
}

/// Whether `s` ends with `suffix`.
pub open spec fn ends_with(s: Seq<char>, suffix: Seq<char>) -> bool {
    suffix.len() <= s.len() && s.subrange(s.len() - suffix.len(), s.len() as int) == suffix
}

/// `s` with every trailing repetition of a non-empty `suffix` removed, as
/// `str::trim_end_matches` gives it.
pub open spec fn trim_end_matches_spec(s: Seq<char>, suffix: Seq<char>) -> Seq<char>
    decreases s.len(),
{
    if suffix.len() > 0 && ends_with(s, suffix) {
        trim_end_matches_spec(s.subrange(0, s.len() - suffix.len()), suffix)
    } else {
        s
    }
}

/// `s` without `suffix`, if it ends with it, as `str::strip_suffix` gives it.
pub open spec fn strip_suffix_spec(s: Seq<char>, suffix: Seq<char>) -> Option<Seq<char>> {
    if ends_with(s, suffix) {
        Some(s.subrange(0, s.len() - suffix.len()))
    } else {
        None
    }
}

/// The characters `start .. end` of `chars`.
fn chars_between(chars: &Vec<char>, start: usize, end: usize) -> (part: Vec<char>)
    requires
        start <= end <= chars.len(),
    ensures
        part@ == chars@.subrange(start as int, end as int),
{
    let mut part: Vec<char> = Vec::new();
    let mut i = start;
    while i < end
        invariant
            start <= i <= end <= chars.len(),
            part@ == chars@.subrange(start as int, i as int),
        decreases end - i,
    {
        part.push(chars[i]);
        i = i + 1;
        assert(part@ =~= chars@.subrange(start as int, i as int));
    }
    part
}

/// `chars` without leading and trailing white space.
pub fn trim(chars: &Vec<char>) -> (trimmed: Vec<char>)
    ensures
        trimmed@ == trim_spec(chars@),
{
    let len = chars.len();
    let mut start: usize = 0;
    assert(chars@.subrange(0, len as int) =~= chars@);
    while start < len && is_whitespace(chars[start])
        invariant
            start <= len == chars.len(),
            trim_start_spec(chars@) == trim_start_spec(chars@.subrange(start as int, len as int)),
        decreases len - start,
    {
        assert(chars@.subrange(start as int, len as int).drop_first() =~= chars@.subrange(
            start + 1,
            len as int,
        ));
        start = start + 1;
    }
    assert(trim_start_spec(chars@.subrange(start as int, len as int)) == chars@.subrange(
        start as int,
        len as int,
    ));
    let mut end: usize = len;
    while end > start && is_whitespace(chars[end - 1])
        invariant
            start <= end <= len == chars.len(),
            trim_spec(chars@) == trim_end_spec(chars@.subrange(start as int, end as int)),
        decreases end,
    {
        assert(chars@.subrange(start as int, end as int).drop_last() =~= chars@.subrange(
            start as int,
            end - 1,
        ));
        end = end - 1;
    }
    chars_between(chars, start, end)
}

/// Whether the first `end` characters of `chars` end with `suffix`.
fn prefix_ends_with(chars: &Vec<char>, end: usize, suffix: &Vec<char>) -> (found: bool)
    requires
        end <= chars.len(),
    ensures
        found == ends_with(chars@.subrange(0, end as int), suffix@),
{
    if suffix.len() > end {
        return false;
    }
    let offset = end - suffix.len();
    let mut i: usize = 0;
    while i < suffix.len()
        invariant
            offset + suffix.len() == end <= chars.len(),
            i <= suffix.len(),
            forall|k: int| 0 <= k < i ==> chars@[offset + k] == suffix@[k],
        decreases suffix.len() - i,
    {
        if chars[offset + i] != suffix[i] {
            assert(chars@.subrange(0, end as int).subrange(offset as int, end as int)[i as int]
                != suffix@[i as int]);
            return false;
        }
        i = i + 1;
    }
    assert(chars@.subrange(0, end as int).subrange(offset as int, end as int) =~= suffix@);
    true
}

/// `chars` with every trailing repetition of `suffix` removed.
pub fn trim_end_matches(chars: &Vec<char>, suffix: &Vec<char>) -> (trimmed: Vec<char>)
    ensures
        trimmed@ == trim_end_matches_spec(chars@, suffix@),
{
    let mut end = chars.len();
    assert(chars@.subrange(0, end as int) =~= chars@);
    if suffix.len() > 0 {
        while prefix_ends_with(chars, end, suffix)
            invariant
                suffix@.len() > 0,
                end <= chars.len(),
                trim_end_matches_spec(chars@, suffix@) == trim_end_matches_spec(
                    chars@.subrange(0, end as int),
                    suffix@,
                ),
            decreases end,
        {
            assert(chars@.subrange(0, end as int).subrange(0, end - suffix.len()) =~= chars@.subrange(
                0,
                end - suffix.len(),
            ));
            end = end - suffix.len();
        }
    }
    chars_between(chars, 0, end)
}

/// `chars` without `suffix`, if it ends with it.
pub fn strip_suffix(chars: &Vec<char>, suffix: &Vec<char>) -> (stripped: Option<Vec<char>>)
    ensures
        stripped matches Some(s) ==> strip_suffix_spec(chars@, suffix@) == Some(s@),
        stripped is None ==> strip_suffix_spec(chars@, suffix@) is None,
{
    let end = chars.len();
    assert(chars@.subrange(0, end as int) =~= chars@);
    if prefix_ends_with(chars, end, suffix) {
        Some(chars_between(chars, 0, end - suffix.len()))
    } else {
        None
    }
}

/// The number in a value typed with a unit that may be written with or
/// without a space before it, such as "-3.5 dB" or "-3.5dB".
pub open spec fn unit_text_spec(s: Seq<char>, spaced_unit: Seq<char>, unit: Seq<char>) -> Seq<char> {
    trim_spec(trim_end_matches_spec(trim_end_matches_spec(trim_spec(s), spaced_unit), unit))
}

/// The number in a value typed with a unit, spaced or not.
fn unit_text(s: &str, spaced_unit: &str, unit: &str) -> (text: Vec<char>)
    ensures
        text@ == unit_text_spec(s@, spaced_unit@, unit@),
{
    let chars = trim(&chars_of(s));
    let chars = trim_end_matches(&chars, &chars_of(spaced_unit));
    let chars = trim_end_matches(&chars, &chars_of(unit));
    trim(&chars)
}

/// The number in a typed percentage such as "42.5 %".
pub open spec fn percentage_text_spec(s: Seq<char>) -> Seq<char> {
    trim_spec(trim_end_matches_spec(trim_spec(s), "%"@))
}

/// The number in a typed percentage; the value is that number divided by 100.
pub fn percentage_text(s: &str) -> (text: Vec<char>)
    ensures
        text@ == percentage_text_spec(s@),
{
    let chars = trim(&chars_of(s));
    let chars = trim_end_matches(&chars, &chars_of("%"));
    trim(&chars)
}

/// The number in a typed level such as "-6.0 dB".
pub fn db_text(s: &str) -> (text: Vec<char>)
    ensures
        text@ == unit_text_spec(s@, " dB"@, "dB"@),
{
    unit_text(s, " dB", "dB")
}

/// The number in a typed time such as "12.5 ms".
pub fn ms_text(s: &str) -> (text: Vec<char>)
    ensures
        text@ == unit_text_spec(s@, " ms"@, "ms"@),
{
    unit_text(s, " ms", "ms")
}

/// The number in a typed pitch shift such as "+7 st".
pub fn semitones_text(s: &str) -> (text: Vec<char>)
    ensures
        text@ == unit_text_spec(s@, " st"@, "st"@),
{
    unit_text(s, " st", "st")
}

/// The number in a typed detune such as "-25 ct".
pub fn cents_text(s: &str) -> (text: Vec<char>)
    ensures
        text@ == unit_text_spec(s@, " ct"@, "ct"@),
{
    unit_text(s, " ct", "ct")
}

/// The number in a typed ratio such as "4.0:1".
pub open spec fn ratio_text_spec(s: Seq<char>) -> Seq<char> {
    trim_spec(trim_end_matches_spec(trim_spec(s), ":1"@))
}

/// The number in a typed ratio; the value is that number.
pub fn ratio_text(s: &str) -> (text: Vec<char>)
    ensures
        text@ == ratio_text_spec(s@),
{
    let chars = trim(&chars_of(s));
    let chars = trim_end_matches(&chars, &chars_of(":1"));
    trim(&chars)
}

/// The number in a time typed for a time parameter, such as "250 ms": the
/// text is trimmed and " ms" cut from its end, with no second trim.
pub open spec fn time_ms_text_spec(s: Seq<char>) -> Seq<char> {
    trim_end_matches_spec(trim_spec(s), " ms"@)
}

/// The number in a time typed for a time parameter.
pub fn time_ms_text(s: &str) -> (text: Vec<char>)
    ensures
        text@ == time_ms_text_spec(s@),
{
    let chars = trim(&chars_of(s));
    trim_end_matches(&chars, &chars_of(" ms"))
}

/// The number in a typed frequency, and whether it is in kilohertz: a
/// trimmed text ending in "kHz" (or " kHz") gives the rest, trimmed, in
/// kilohertz; any other gives its number in hertz, " Hz" or "Hz" cut away.
pub open spec fn hz_text_spec(s: Seq<char>) -> (Seq<char>, bool) {
    let trimmed = trim_spec(s);
    match strip_suffix_spec(trimmed, "kHz"@) {
        Some(khz) => (trim_spec(khz), true),
        None => match strip_suffix_spec(trimmed, " kHz"@) {
            Some(khz) => (trim_spec(khz), true),
            None => (unit_text_spec(s, " Hz"@, "Hz"@), false),
        },
    }
}

/// The number in a typed frequency, and whether it is in kilohertz; the
/// value in hertz is the number, times 1000 for kilohertz.
pub fn hz_text(s: &str) -> (text: (Vec<char>, bool))
    ensures
        (text.0@, text.1) == hz_text_spec(s@),
{
    let trimmed = trim(&chars_of(s));
    match strip_suffix(&trimmed, &chars_of("kHz")) {
        Some(khz) => (trim(&khz), true),
        None => match strip_suffix(&trimmed, &chars_of(" kHz")) {
            Some(khz) => (trim(&khz), true),
            None => (unit_text(s, " Hz", "Hz"), false),
        },
    }
}

/// A character the display writes in a number: a digit, a sign or the
/// decimal point.
pub open spec fn is_number_char(c: char) -> bool {
    ('0' <= c && c <= '9') || c == '.' || c == '-' || c == '+'
}

/// The text of a number as the display writes it.
pub open spec fn is_number_text(n: Seq<char>) -> bool {
    n.len() > 0 && forall|i: int| 0 <= i < n.len() ==> is_number_char(#[trigger] n[i])
}

/// A text that neither starts nor ends with white space is its own trim.
proof fn lemma_trim_keeps(x: Seq<char>)
    requires
        x.len() > 0,
        !is_white_space(x[0]),
        !is_white_space(x.last()),
    ensures
        trim_spec(x) == x,
{
}

/// Removing a suffix that does not end the text changes nothing.
proof fn lemma_trim_end_matches_absent(x: Seq<char>, suffix: Seq<char>)
    requires
        !ends_with(x, suffix),
    ensures
        trim_end_matches_spec(x, suffix) == x,
{
}

/// A number never ends with a suffix holding a character that is not part of
/// a number.
proof fn lemma_number_lacks_suffix(n: Seq<char>, suffix: Seq<char>, k: int)
    requires
        is_number_text(n),
        0 <= k < suffix.len(),
        !is_number_char(suffix[k]),
    ensures
        !ends_with(n, suffix),
{
    if ends_with(n, suffix) {
        assert(n.subrange(n.len() - suffix.len(), n.len() as int)[k] == n[n.len() - suffix.len() + k]);
    }
}

/// Cutting a suffix from a number followed by that suffix gives back the
/// number.
proof fn lemma_cut_suffix_after_number(n: Seq<char>, suffix: Seq<char>, k: int)
    requires
        is_number_text(n),
        0 <= k < suffix.len(),
        !is_number_char(suffix[k]),
    ensures
        trim_end_matches_spec(n + suffix, suffix) == n,
{
    let x = n + suffix;
    assert(x.subrange(x.len() - suffix.len(), x.len() as int) =~= suffix);
    assert(x.subrange(0, x.len() - suffix.len()) =~= n);
    lemma_number_lacks_suffix(n, suffix, k);
    lemma_trim_end_matches_absent(n, suffix);
}

/// A number is its own trim.
proof fn lemma_number_trims_to_itself(n: Seq<char>)
    requires
        is_number_text(n),
    ensures
        trim_spec(n) == n,
{
    assert(is_number_char(n[0]));
    assert(is_number_char(n.last()));
}

/// A number followed by a unit, with or without a space before it, reads
/// back as the number, when the unit holds a character that is not part of a
/// number and does not end in white space.
pub proof fn law_unit_value_reads_back(n: Seq<char>, spaced_unit: Seq<char>, unit: Seq<char>, k: int)
    requires
        is_number_text(n),
        spaced_unit == seq![' '] + unit,
        0 <= k < unit.len(),
        !is_number_char(unit[k]),
        !is_white_space(unit.last()),
    ensures
        unit_text_spec(n + spaced_unit, spaced_unit, unit) == n,
        unit_text_spec(n + unit, spaced_unit, unit) == n,
{
    assert(is_number_char(n[0]));
    lemma_number_trims_to_itself(n);
    let spaced = n + spaced_unit;
    assert(spaced[0] == n[0]);
    assert(spaced.last() == unit.last());
    lemma_trim_keeps(spaced);
    assert(spaced_unit[0] == ' ');
    lemma_cut_suffix_after_number(n, spaced_unit, 0);
    lemma_number_lacks_suffix(n, unit, k);
    lemma_trim_end_matches_absent(n, unit);
    let plain = n + unit;
    assert(plain[0] == n[0]);
    assert(plain.last() == unit.last());
    lemma_trim_keeps(plain);
    lemma_cut_suffix_after_number(n, unit, k);
    lemma_unit_not_after_space(n, spaced_unit, unit, k);
}

/// A number followed by a suffix that holds a character not part of a number
/// and does not end in white space reads back as the number.
proof fn lemma_suffixed_value_reads_back(n: Seq<char>, suffix: Seq<char>, k: int)
    requires
        is_number_text(n),
        0 <= k < suffix.len(),
        !is_number_char(suffix[k]),
        !is_white_space(suffix.last()),
    ensures
        trim_spec(trim_end_matches_spec(trim_spec(n + suffix), suffix)) == n,
{
    assert(is_number_char(n[0]));
    let x = n + suffix;
    assert(x[0] == n[0]);
    assert(x.last() == suffix.last());
    lemma_trim_keeps(x);
    lemma_cut_suffix_after_number(n, suffix, k);
    lemma_number_trims_to_itself(n);
}

/// Reading back a percentage displayed as "42.5%" gives the displayed number.
pub proof fn law_percentage_reads_back(n: Seq<char>)
    requires
        is_number_text(n),
    ensures
        percentage_text_spec(n + "%"@) == n,
{
    reveal_strlit("%");
    lemma_suffixed_value_reads_back(n, "%"@, 0);
}

/// Reading back a ratio displayed as "4.0:1" gives the displayed number.
pub proof fn law_ratio_reads_back(n: Seq<char>)
    requires
        is_number_text(n),
    ensures
        ratio_text_spec(n + ":1"@) == n,
{
    reveal_strlit(":1");
    lemma_suffixed_value_reads_back(n, ":1"@, 0);
}

/// Reading back a time displayed as "250.0 ms" by a time parameter gives the
/// displayed number.
pub proof fn law_time_ms_reads_back(n: Seq<char>)
    requires
        is_number_text(n),
    ensures
        time_ms_text_spec(n + " ms"@) == n,
{
    reveal_strlit(" ms");
    assert(is_number_char(n[0]));
    let x = n + " ms"@;
    assert(x[0] == n[0]);
    assert(x.last() == 's');
    lemma_trim_keeps(x);
    lemma_cut_suffix_after_number(n, " ms"@, 0);
}

/// Reading back a frequency displayed as "880.0 Hz" or "2.50 kHz", or typed
/// as "880Hz" or "2.5kHz", gives the number in that unit.
pub proof fn law_hz_reads_back(n: Seq<char>)
    requires
        is_number_text(n),
    ensures
        hz_text_spec(n + " Hz"@) == (n, false),
        hz_text_spec(n + "Hz"@) == (n, false),
        hz_text_spec(n + " kHz"@) == (n, true),
        hz_text_spec(n + "kHz"@) == (n, true),
{
    reveal_strlit(" Hz");
    reveal_strlit("Hz");
    reveal_strlit("kHz");
    reveal_strlit(" kHz");
    assert(is_number_char(n[0]));
    assert(is_number_char(n.last()));
    let khz = n + " kHz"@;
    assert(khz[0] == n[0]);
    assert(khz.last() == 'z');
    lemma_trim_keeps(khz);
    assert(khz.subrange(khz.len() - 3, khz.len() as int) =~= "kHz"@);
    let spaced = khz.subrange(0, khz.len() - 3);
    assert(spaced =~= n + seq![' ']);
    assert(spaced.drop_last() =~= n);
    assert(trim_start_spec(spaced) == spaced);
    lemma_number_trims_to_itself(n);
    let hz = n + " Hz"@;
    assert(hz[0] == n[0]);
    assert(hz.last() == 'z');
    lemma_trim_keeps(hz);
    assert(hz.subrange(hz.len() - 3, hz.len() as int)[0] == ' ');
    if ends_with(hz, " kHz"@) {
        assert(hz.subrange(hz.len() - 4, hz.len() as int)[0] == hz[hz.len() - 4]);
        assert(hz[hz.len() - 4] == n.last());
    }
    assert(" Hz"@ =~= seq![' '] + "Hz"@);
    law_unit_value_reads_back(n, " Hz"@, "Hz"@, 0);
    let plain = n + "Hz"@;
    assert(plain[0] == n[0]);
    assert(plain.last() == 'z');
    lemma_trim_keeps(plain);
    if ends_with(plain, "kHz"@) {
        assert(plain.subrange(plain.len() - 3, plain.len() as int)[0] == plain[plain.len() - 3]);
        assert(plain[plain.len() - 3] == n.last());
    }
    if ends_with(plain, " kHz"@) {
        assert(plain.subrange(plain.len() - 4, plain.len() as int)[1] == plain[plain.len() - 3]);
        assert(plain[plain.len() - 3] == n.last());
    }
    let unspaced = n + "kHz"@;
    assert(unspaced[0] == n[0]);
    assert(unspaced.last() == 'z');
    lemma_trim_keeps(unspaced);
    assert(unspaced.subrange(unspaced.len() - 3, unspaced.len() as int) =~= "kHz"@);
    assert(unspaced.subrange(0, unspaced.len() - 3) =~= n);
}

/// Reading back a level displayed as "-6.0 dB" gives the displayed number.
pub proof fn law_db_reads_back(n: Seq<char>)
    requires
        is_number_text(n),
    ensures
        unit_text_spec(n + " dB"@, " dB"@, "dB"@) == n,
        unit_text_spec(n + "dB"@, " dB"@, "dB"@) == n,
{
    reveal_strlit(" dB");
    reveal_strlit("dB");
    assert(" dB"@ =~= seq![' '] + "dB"@);
    law_unit_value_reads_back(n, " dB"@, "dB"@, 0);
}

/// Reading back a time displayed as "12.5 ms" gives the displayed number.
pub proof fn law_ms_reads_back(n: Seq<char>)
    requires
        is_number_text(n),
    ensures
        unit_text_spec(n + " ms"@, " ms"@, "ms"@) == n,
        unit_text_spec(n + "ms"@, " ms"@, "ms"@) == n,
{
    reveal_strlit(" ms");
    reveal_strlit("ms");
    assert(" ms"@ =~= seq![' '] + "ms"@);
    law_unit_value_reads_back(n, " ms"@, "ms"@, 0);
}

/// Reading back a pitch shift displayed as "+7 st" gives the displayed number.
pub proof fn law_semitones_reads_back(n: Seq<char>)
    requires
        is_number_text(n),
    ensures
        unit_text_spec(n + " st"@, " st"@, "st"@) == n,
        unit_text_spec(n + "st"@, " st"@, "st"@) == n,
{
    reveal_strlit(" st");
    reveal_strlit("st");
    assert(" st"@ =~= seq![' '] + "st"@);
    law_unit_value_reads_back(n, " st"@, "st"@, 0);
}

/// Reading back a detune displayed as "-25 ct" gives the displayed number.
pub proof fn law_cents_reads_back(n: Seq<char>)
    requires
        is_number_text(n),
    ensures
        unit_text_spec(n + " ct"@, " ct"@, "ct"@) == n,
        unit_text_spec(n + "ct"@, " ct"@, "ct"@) == n,
{
    reveal_strlit(" ct");
    reveal_strlit("ct");
    assert(" ct"@ =~= seq![' '] + "ct"@);
    law_unit_value_reads_back(n, " ct"@, "ct"@, 0);
}

/// A number followed by a unit does not end with the spaced unit.
proof fn lemma_unit_not_after_space(n: Seq<char>, spaced_unit: Seq<char>, unit: Seq<char>, k: int)
    requires
        is_number_text(n),
        spaced_unit == seq![' '] + unit,
        0 <= k < unit.len(),
    ensures
        !ends_with(n + unit, spaced_unit),
{
    let plain = n + unit;
    if ends_with(plain, spaced_unit) {
        let at = plain.len() - spaced_unit.len();
        assert(plain.subrange(at, plain.len() as int)[0] == ' ');
        assert(plain[at] == ' ');
        assert(at < n.len());
        assert(is_number_char(n[at]));
    }
}

} // verus!
