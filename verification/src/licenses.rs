//! License notices of the bundled components, and the word wrapping that
//! lays their texts out for the license viewer.
use vstd::prelude::*;

use crate::text::{chars_of, concat, spec_is_whitespace, spec_trim, string_of, trim_chars};

verus! {

/// How many component notices the license browser lists.
pub const NOTICE_COUNT: usize = 9;

/// One group of components distributed under the same license terms.
#[derive(Clone, Copy, Debug)]
pub struct LicenseNotice {
    /// Short heading shown in the component list.
    pub title: &'static str,
    /// Components covered by this notice.
    pub components: &'static str,
    /// SPDX-style license description.
    pub license: &'static str,
}

/// Title, components and license of notice `index` (0 to 8).
pub open spec fn spec_notice(index: int) -> (Seq<char>, Seq<char>, Seq<char>) {
    if index == 0 {
        ("Moonlight Scarlet"@, "Moonlight Scarlet · moonlight-common-c"@, "GNU GPL version 3"@)
    } else if index == 1 {
        ("Opus"@, "libopus"@, "BSD-3-Clause"@)
    } else if index == 2 {
        ("rust-opus"@, "rust-opus · opus-head-sys"@, "Apache-2.0"@)
    } else if index == 3 {
        ("Mbed TLS"@, "Mbed TLS · tstrans-mbedtls-src"@, "Apache-2.0"@)
    } else if index == 4 {
        ("ENet"@, "Moonlight bundled ENet"@, "MIT"@)
    } else if index == 5 {
        ("nanors"@, "moonlight-common-c nanors"@, "MIT"@)
    } else if index == 6 {
        ("Scarlet"@, "Scarlet platform libraries"@, "MIT"@)
    } else if index == 7 {
        ("ScarletUI"@, "ScarletUI"@, "MIT"@)
    } else {
        (
            "Tabler Icons"@,
            "Tabler Icons · glyphs used by scarlet-ui-icons-tabler"@,
            "MIT · Copyright (c) 2020-2026 Paweł Kuna"@,
        )
    }
}

/// The license texts that the license browser shows.
pub enum LicenseText {
    /// Moonlight Scarlet's `LICENSE`: the GNU GPL, version 3.
    MoonlightGpl3,
    /// libopus's BSD 3-clause license.
    OpusBsd3,
    /// rust-opus's Apache License 2.0.
    RustOpusApache2,
    /// rust-opus's `NOTICE`, given under the Apache License 2.0.
    RustOpusNotice,
    /// The MIT license of the ENet bundled in moonlight-common-c.
    EnetMit,
    /// The MIT license of nanors in moonlight-common-c.
    NanorsMit,
    /// The MIT license of the Scarlet platform libraries.
    ScarletMit,
    /// The MIT license of ScarletUI.
    ScarletUiMit,
    /// The MIT license of Tabler Icons.
    TablerIconsMit,
}

/// The name of the license that a text grants.
pub open spec fn spec_text_license(text: LicenseText) -> Seq<char> {
    match text {
        LicenseText::MoonlightGpl3 => "GNU GPL version 3"@,
        LicenseText::OpusBsd3 => "BSD-3-Clause"@,
        LicenseText::RustOpusApache2 => "Apache-2.0"@,
        LicenseText::RustOpusNotice => "Apache-2.0"@,
        LicenseText::EnetMit => "MIT"@,
        LicenseText::NanorsMit => "MIT"@,
        LicenseText::ScarletMit => "MIT"@,
        LicenseText::ScarletUiMit => "MIT"@,
        LicenseText::TablerIconsMit => "MIT"@,
    }
}

/// The texts shown on the page of notice `index` (0 to 8): Mbed TLS is
/// shown with rust-opus's copy of the Apache License.
pub open spec fn spec_notice_texts(index: int) -> Seq<LicenseText> {
    if index == 0 {
        seq![LicenseText::MoonlightGpl3]
    } else if index == 1 {
        seq![LicenseText::OpusBsd3]
    } else if index == 2 {
        seq![LicenseText::RustOpusApache2, LicenseText::RustOpusNotice]
    } else if index == 3 {
        seq![LicenseText::RustOpusApache2]
    } else if index == 4 {
        seq![LicenseText::EnetMit]
    } else if index == 5 {
        seq![LicenseText::NanorsMit]
    } else if index == 6 {
        seq![LicenseText::ScarletMit]
    } else if index == 7 {
        seq![LicenseText::ScarletUiMit]
    } else {
        seq![LicenseText::TablerIconsMit]
    }
}

/// A law of the license notices: every notice names, at its start, the
/// license of each text shown on its page.
pub proof fn law_notice_names_the_license_of_its_texts(index: int, k: int)
    requires
        0 <= index < NOTICE_COUNT,
        0 <= k < spec_notice_texts(index).len(),
    ensures
        ({
            let license = spec_notice(index).2;
            let name = spec_text_license(spec_notice_texts(index)[k]);
            name.len() <= license.len() && license.subrange(0, name.len() as int) == name
        }),
{
    reveal_strlit("GNU GPL version 3");
    reveal_strlit("BSD-3-Clause");
    reveal_strlit("Apache-2.0");
    reveal_strlit("MIT");
    reveal_strlit("MIT · Copyright (c) 2020-2026 Paweł Kuna");
    let license = spec_notice(index).2;
    let name = spec_text_license(spec_notice_texts(index)[k]);
    assert(license.subrange(0, name.len() as int) =~= name);
}

fn make_notice(title: &'static str, components: &'static str, license: &'static str) -> (res: LicenseNotice)
    ensures
        res.title@ == title@,
        res.components@ == components@,
        res.license@ == license@,
{
    LicenseNotice { title, components, license }
}

/// Notice `index`, or the application's own notice for an index past the
/// list.
pub fn notice(index: usize) -> (res: LicenseNotice)
    ensures
        index < NOTICE_COUNT ==> (res.title@, res.components@, res.license@) == spec_notice(index as int),
        index >= NOTICE_COUNT ==> (res.title@, res.components@, res.license@) == spec_notice(0),
{
    if index == 1 {
        make_notice("Opus", "libopus", "BSD-3-Clause")
    } else if index == 2 {
        make_notice("rust-opus", "rust-opus · opus-head-sys", "Apache-2.0")
    } else if index == 3 {
        make_notice("Mbed TLS", "Mbed TLS · tstrans-mbedtls-src", "Apache-2.0")
    } else if index == 4 {
        make_notice("ENet", "Moonlight bundled ENet", "MIT")
    } else if index == 5 {
        make_notice("nanors", "moonlight-common-c nanors", "MIT")
    } else if index == 6 {
        make_notice("Scarlet", "Scarlet platform libraries", "MIT")
    } else if index == 7 {
        make_notice("ScarletUI", "ScarletUI", "MIT")
    } else if index == 8 {
        make_notice(
            "Tabler Icons",
            "Tabler Icons · glyphs used by scarlet-ui-icons-tabler",
            "MIT · Copyright (c) 2020-2026 Paweł Kuna",
        )
    } else {
        make_notice("Moonlight Scarlet", "Moonlight Scarlet · moonlight-common-c", "GNU GPL version 3")
    }
}

/// Length of the first line of `t`: up to its first `\n`, or all of it.
pub open spec fn spec_line_length(t: Seq<char>) -> nat
    decreases t.len(),
{
    if t.len() == 0 || t[0] == '\n' {
        0
    } else {
        1 + spec_line_length(t.drop_first())
    }
}

/// Length of the first word of `t`: up to its first whitespace, or all of it.
pub open spec fn spec_word_length(t: Seq<char>) -> nat
    decreases t.len(),
{
    if t.len() == 0 || spec_is_whitespace(t[0]) {
        0
    } else {
        1 + spec_word_length(t.drop_first())
    }
}

pub proof fn lemma_word_length_bound(t: Seq<char>)
    ensures
        spec_word_length(t) <= t.len(),
        t.len() > 0 && !spec_is_whitespace(t[0]) ==> spec_word_length(t) >= 1,
    decreases t.len(),
{
    if t.len() > 0 && !spec_is_whitespace(t[0]) {
        lemma_word_length_bound(t.drop_first());
    }
}

pub proof fn lemma_line_length_bound(t: Seq<char>)
    ensures
        spec_line_length(t) <= t.len(),
    decreases t.len(),
{
    if t.len() > 0 && t[0] != '\n' {
        lemma_line_length_bound(t.drop_first());
    }
}

/// The words of `s`: its maximal runs of non-whitespace characters, in
/// order (`str::split_whitespace`).
pub open spec fn spec_words(s: Seq<char>) -> Seq<Seq<char>>
    decreases s.len(),
{
    if s.len() == 0 {
        Seq::empty()
    } else if spec_is_whitespace(s[0]) {
        spec_words(s.drop_first())
    } else {
        proof {
            lemma_word_length_bound(s);
        }
        let n = spec_word_length(s) as int;
        seq![s.subrange(0, n)] + spec_words(s.subrange(n, s.len() as int))
    }
}

/// Greedy filling of words into lines of at most `max` characters: a word
/// goes on the current line, after a space, while the line stays within
/// `max`; else it starts a new line. A word longer than `max` stands alone.
pub open spec fn spec_fill(words: Seq<Seq<char>>, max: nat, current: Seq<char>) -> Seq<Seq<char>>
    decreases words.len(),
{
    if words.len() == 0 {
        seq![current]
    } else {
        let word = words[0];
        if current.len() > 0 && current.len() + 1 + word.len() > max {
            seq![current] + spec_fill(words.drop_first(), max, word)
        } else {
            let next = if current.len() > 0 {
                current + seq![' '] + word
            } else {
                word
            };
            spec_fill(words.drop_first(), max, next)
        }
    }
}

/// The display lines of one text line: an empty line when it is blank,
/// else its words filled into lines of at most `max` characters.
pub open spec fn spec_wrap_line(line: Seq<char>, max: nat) -> Seq<Seq<char>> {
    if spec_trim(line).len() == 0 {
        seq![Seq::<char>::empty()]
    } else {
        spec_fill(spec_words(line), max, Seq::empty())
    }
}

/// The display lines of a text, line by line (`str::lines`: split at `\n`,
/// with a `\r` before the `\n` removed, and no line after a final `\n`).
pub open spec fn spec_wrap_lines(t: Seq<char>, max: nat) -> Seq<Seq<char>>
    decreases t.len(),
{
    if t.len() == 0 {
        Seq::empty()
    } else {
        proof {
            lemma_line_length_bound(t);
        }
        let e = spec_line_length(t) as int;
        let raw = t.subrange(0, e);
        let line = if e < t.len() && raw.len() > 0 && raw.last() == '\r' {
            raw.drop_last()
        } else {
            raw
        };
        let rest = if e < t.len() {
            t.subrange(e + 1, t.len() as int)
        } else {
            Seq::empty()
        };
        spec_wrap_line(line, max) + spec_wrap_lines(rest, max)
    }
}

/// The display lines of a license text for a viewer `maximum` characters
/// wide (at least one).
pub open spec fn spec_wrap_text(text: Seq<char>, maximum: nat) -> Seq<Seq<char>> {
    spec_wrap_lines(text, if maximum < 1 { 1 } else { maximum })
}

/// The views of a sequence of strings.
pub open spec fn strings_view(v: Seq<String>) -> Seq<Seq<char>> {
    v.map_values(|s: String| s@)
}

proof fn lemma_word_run(s: Seq<char>, i: int, j: int)
    requires
        0 <= i < j <= s.len(),
        forall|k: int| i <= k < j ==> !spec_is_whitespace(s[k]),
        j == s.len() || spec_is_whitespace(s[j]),
    ensures
        spec_word_length(s.subrange(i, s.len() as int)) == j - i,
    decreases j - i,
{
    let t = s.subrange(i, s.len() as int);
    assert(t[0] == s[i]);
    assert(!spec_is_whitespace(s[i]));
    assert(t.drop_first() =~= s.subrange(i + 1, s.len() as int));
    assert(spec_word_length(t) == 1 + spec_word_length(t.drop_first()));
    if i + 1 < j {
        lemma_word_run(s, i + 1, j);
    } else {
        let u = s.subrange(i + 1, s.len() as int);
        if u.len() > 0 {
            assert(u[0] == s[j]);
        }
        assert(spec_word_length(u) == 0);
    }
}

proof fn lemma_line_run(s: Seq<char>, i: int, j: int)
    requires
        0 <= i <= j <= s.len(),
        forall|k: int| i <= k < j ==> s[k] != '\n',
        j == s.len() || s[j] == '\n',
    ensures
        spec_line_length(s.subrange(i, s.len() as int)) == j - i,
    decreases j - i,
{
    let t = s.subrange(i, s.len() as int);
    if i < j {
        assert(t.drop_first() =~= s.subrange(i + 1, s.len() as int));
        lemma_line_run(s, i + 1, j);
    } else if t.len() > 0 {
        assert(t[0] == s[j]);
    }
}

/// The words of a line, in order.
fn words_of(line: &[char]) -> (res: Vec<Vec<char>>)
    ensures
        res@.map_values(|w: Vec<char>| w@) == spec_words(line@),
{
    let n = line.len();
    let mut words: Vec<Vec<char>> = Vec::new();
    let mut i: usize = 0;
    assert(line@.subrange(0, n as int) =~= line@);
    while i < n
        invariant
            i <= n == line.len(),
            spec_words(line@) == words@.map_values(|w: Vec<char>| w@) + spec_words(
                line@.subrange(i as int, n as int),
            ),
        decreases n - i,
    {
        let ghost rest = line@.subrange(i as int, n as int);
        if crate::text::is_whitespace(line[i]) {
            assert(rest.drop_first() =~= line@.subrange(i + 1, n as int));
            i = i + 1;
        } else {
            let mut j: usize = i;
            let mut word: Vec<char> = Vec::new();
            while j < n && !crate::text::is_whitespace(line[j])
                invariant
                    i <= j <= n == line.len(),
                    word@ == line@.subrange(i as int, j as int),
                    forall|k: int| i <= k < j ==> !spec_is_whitespace(line@[k]),
                decreases n - j,
            {
                word.push(line[j]);
                j = j + 1;
                assert(word@ =~= line@.subrange(i as int, j as int));
            }
            proof {
                assert(j > i);
                lemma_word_run(line@, i as int, j as int);
                assert(rest.subrange(0, (j - i) as int) =~= line@.subrange(i as int, j as int));
                assert(rest.subrange((j - i) as int, rest.len() as int) =~= line@.subrange(
                    j as int,
                    n as int,
                ));
            }
            let ghost before = words@;
            words.push(word);
            assert(words@.map_values(|w: Vec<char>| w@) =~= before.map_values(|w: Vec<char>| w@).push(
                line@.subrange(i as int, j as int),
            ));
            i = j;
        }
    }
    assert(spec_words(line@.subrange(n as int, n as int)) =~= Seq::<Seq<char>>::empty());
    assert(words@.map_values(|w: Vec<char>| w@) + Seq::<Seq<char>>::empty() =~= words@.map_values(
        |w: Vec<char>| w@,
    ));
    words
}

/// Fills words into display lines of at most `max` characters.
fn fill(words: &Vec<Vec<char>>, max: usize, out: &mut Vec<String>)
    ensures
        strings_view(final(out)@) == strings_view(old(out)@) + spec_fill(
            words@.map_values(|w: Vec<char>| w@),
            max as nat,
            Seq::empty(),
        ),
{
    let ghost all = words@.map_values(|w: Vec<char>| w@);
    let mut current: Vec<char> = Vec::new();
    let mut i: usize = 0;
    assert(all.subrange(0, all.len() as int) =~= all);
    while i < words.len()
        invariant
            i <= words.len(),
            all == words@.map_values(|w: Vec<char>| w@),
            strings_view(old(out)@) + spec_fill(all, max as nat, Seq::empty()) == strings_view(out@)
                + spec_fill(all.subrange(i as int, all.len() as int), max as nat, current@),
        decreases words.len() - i,
    {
        let ghost rest = all.subrange(i as int, all.len() as int);
        assert(rest.drop_first() =~= all.subrange(i + 1, all.len() as int));
        let word = &words[i];
        assert(word@ == rest[0]);
        let ghost old_current = current@;
        let ghost old_out = strings_view(out@);
        if current.len() > 0 && (current.len() >= max || word.len() > max - current.len() - 1) {
            assert(spec_fill(rest, max as nat, old_current) == seq![old_current] + spec_fill(
                rest.drop_first(),
                max as nat,
                word@,
            ));
            let ghost before = out@;
            out.push(string_of(current.as_slice()));
            assert(strings_view(out@) =~= strings_view(before) + seq![current@]);
            current = Vec::new();
            let mut k: usize = 0;
            while k < word.len()
                invariant
                    k <= word.len(),
                    current@ == word@.subrange(0, k as int),
                decreases word.len() - k,
            {
                current.push(word[k]);
                k = k + 1;
                assert(current@ =~= word@.subrange(0, k as int));
            }
            assert(current@ =~= word@);
            assert(strings_view(out@) + spec_fill(rest.drop_first(), max as nat, current@) =~= old_out
                + spec_fill(rest, max as nat, old_current));
        } else {
            let ghost before_current = current@;
            if current.len() > 0 {
                current.push(' ');
            }
            let mut k: usize = 0;
            let ghost base = current@;
            while k < word.len()
                invariant
                    k <= word.len(),
                    current@ == base + word@.subrange(0, k as int),
                decreases word.len() - k,
            {
                current.push(word[k]);
                k = k + 1;
                assert(current@ =~= base + word@.subrange(0, k as int));
            }
            assert(word@.subrange(0, word.len() as int) =~= word@);
            assert(before_current.len() == 0 ==> current@ =~= word@);
            assert(before_current.len() > 0 ==> current@ =~= before_current + seq![' '] + word@);
            assert(spec_fill(rest, max as nat, old_current) == spec_fill(
                rest.drop_first(),
                max as nat,
                current@,
            ));
        }
        i = i + 1;
    }
    let ghost before = out@;
    out.push(string_of(current.as_slice()));
    assert(strings_view(out@) =~= strings_view(before) + seq![current@]);
}

/// The display lines of a license text for a viewer `maximum_characters`
/// wide: each line of the text is wrapped on its own, blank lines stay
/// blank, and a word longer than the width stands alone on its line.
pub fn wrap_text(text: &str, maximum_characters: usize) -> (res: Vec<String>)
    ensures
        strings_view(res@) == spec_wrap_text(text@, maximum_characters as nat),
{
    let max: usize = if maximum_characters < 1 {
        1
    } else {
        maximum_characters
    };
    let chars = chars_of(text);
    let n = chars.len();
    let mut out: Vec<String> = Vec::new();
    let mut start: usize = 0;
    assert(chars@.subrange(0, n as int) =~= chars@);
    while start < n
        invariant
            start <= n == chars.len(),
            chars@ == text@,
            spec_wrap_text(text@, maximum_characters as nat) == strings_view(out@) + spec_wrap_lines(
                chars@.subrange(start as int, n as int),
                max as nat,
            ),
        decreases n - start,
    {
        let ghost t = chars@.subrange(start as int, n as int);
        let mut end: usize = start;
        while end < n && chars[end] != '\n'
            invariant
                start <= end <= n == chars.len(),
                forall|k: int| start <= k < end ==> chars@[k] != '\n',
            decreases n - end,
        {
            end = end + 1;
        }
        proof {
            lemma_line_run(chars@, start as int, end as int);
        }
        let line_end: usize = if end < n && end > start && chars[end - 1] == '\r' {
            end - 1
        } else {
            end
        };
        let line = vstd::slice::slice_subrange(chars.as_slice(), start, line_end);
        proof {
            let raw = t.subrange(0, (end - start) as int);
            assert(raw =~= chars@.subrange(start as int, end as int));
            if end < n && end > start && chars@[end - 1] == '\r' {
                assert(raw.drop_last() =~= line@);
            } else {
                assert(raw =~= line@);
            }
            if end < n {
                assert(t.subrange((end - start) + 1, t.len() as int) =~= chars@.subrange(
                    end + 1,
                    n as int,
                ));
            }
        }
        let (first, last) = trim_chars(line);
        let ghost before = out@;
        if first == last {
            out.push(String::new());
            assert(strings_view(out@) =~= strings_view(before) + seq![Seq::<char>::empty()]);
        } else {
            let words = words_of(line);
            fill(&words, max, &mut out);
        }
        let ghost done = strings_view(out@);
        assert(done == strings_view(before) + spec_wrap_line(line@, max as nat));
        if end < n {
            start = end + 1;
        } else {
            start = n;
            assert(chars@.subrange(n as int, n as int) =~= Seq::<char>::empty());
        }
    }
    assert(strings_view(out@) + Seq::<Seq<char>>::empty() =~= strings_view(out@));
    out
}

/// The display lines of the first `n` texts of a notice: each wrapped, and
/// each after the first introduced as an additional notice.
pub open spec fn spec_sections(texts: Seq<Seq<char>>, n: nat, maximum: nat) -> Seq<Seq<char>>
    decreases n,
{
    if n == 0 {
        Seq::empty()
    } else {
        spec_sections(texts, (n - 1) as nat, maximum) + (if n - 1 != 0 {
            seq![Seq::<char>::empty(), "ADDITIONAL LICENSE OR NOTICE"@, Seq::<char>::empty()]
        } else {
            Seq::empty()
        }) + spec_wrap_text(texts[n - 1], maximum)
    }
}

/// The display lines of a license page: title, components, license and a
/// blank line, then the notice's texts.
pub open spec fn spec_display_lines(index: int, maximum: nat, texts: Seq<Seq<char>>) -> Seq<Seq<char>> {
    let n = spec_notice(if 0 <= index < NOTICE_COUNT { index } else { 0 });
    seq![n.0, n.1, "License: "@ + n.2, Seq::<char>::empty()] + spec_sections(texts, texts.len(), maximum)
}

/// The display lines of the license page of notice `index` (the
/// application's notice past the list), whose texts are `texts`.
pub fn display_lines(index: usize, maximum_characters: usize, texts: &[&str]) -> (res: Vec<String>)
    ensures
        strings_view(res@) == spec_display_lines(
            index as int,
            maximum_characters as nat,
            texts@.map_values(|t: &str| t@),
        ),
{
    let ghost views = texts@.map_values(|t: &str| t@);
    let selected = notice(index);
    let mut sections: Vec<String> = Vec::new();
    sections.push(selected.title.to_owned());
    sections.push(selected.components.to_owned());
    sections.push(concat("License: ", selected.license));
    sections.push(String::new());
    let ghost header = strings_view(sections@);
    assert(header =~= spec_display_lines(index as int, maximum_characters as nat, views).subrange(0, 4));
    let mut i: usize = 0;
    while i < texts.len()
        invariant
            i <= texts.len(),
            views == texts@.map_values(|t: &str| t@),
            header.len() == 4,
            spec_display_lines(index as int, maximum_characters as nat, views) == header + spec_sections(
                views,
                views.len(),
                maximum_characters as nat,
            ),
            strings_view(sections@) == header + spec_sections(views, i as nat, maximum_characters as nat),
        decreases texts.len() - i,
    {
        let ghost before = strings_view(sections@);
        if i != 0 {
            sections.push(String::new());
            sections.push("ADDITIONAL LICENSE OR NOTICE".to_owned());
            sections.push(String::new());
        }
        let ghost middle = strings_view(sections@);
        assert(middle =~= before + (if i != 0 {
            seq![Seq::<char>::empty(), "ADDITIONAL LICENSE OR NOTICE"@, Seq::<char>::empty()]
        } else {
            Seq::<Seq<char>>::empty()
        }));
        let wrapped = wrap_text(texts[i], maximum_characters);
        let mut k: usize = 0;
        while k < wrapped.len()
            invariant
                k <= wrapped.len(),
                strings_view(sections@) == middle + strings_view(wrapped@).subrange(0, k as int),
            decreases wrapped.len() - k,
        {
            let ghost inner = sections@;
            sections.push(wrapped[k].clone());
            assert(strings_view(sections@) =~= strings_view(inner).push(wrapped@[k as int]@));
            k = k + 1;
            assert(strings_view(sections@) =~= middle + strings_view(wrapped@).subrange(0, k as int));
        }
        assert(strings_view(wrapped@).subrange(0, wrapped.len() as int) =~= strings_view(wrapped@));
        assert(views[i as int] == texts[i as int]@);
        i = i + 1;
        assert(strings_view(sections@) =~= header + spec_sections(views, i as nat, maximum_characters as nat));
    }
    sections
}

/// Whether a display line fits a viewer `max` characters wide, or is one
/// unbreakable word.
pub open spec fn spec_fits(line: Seq<char>, max: nat) -> bool {
    line.len() <= max || forall|k: int| 0 <= k < line.len() ==> !spec_is_whitespace(#[trigger] line[k])
}

/// Whether `s` holds no whitespace.
pub open spec fn spec_unbroken(s: Seq<char>) -> bool {
    forall|k: int| 0 <= k < s.len() ==> !spec_is_whitespace(#[trigger] s[k])
}

proof fn lemma_first_word_unbroken(t: Seq<char>, k: int)
    requires
        0 <= k < spec_word_length(t),
    ensures
        k < t.len(),
        !spec_is_whitespace(t[k]),
    decreases t.len(),
{
    lemma_word_length_bound(t);
    if k > 0 {
        lemma_first_word_unbroken(t.drop_first(), k - 1);
    }
}

proof fn lemma_words_unbroken(s: Seq<char>)
    ensures
        forall|i: int| 0 <= i < spec_words(s).len() ==> spec_unbroken(#[trigger] spec_words(s)[i]),
    decreases s.len(),
{
    if s.len() == 0 {
    } else if spec_is_whitespace(s[0]) {
        lemma_words_unbroken(s.drop_first());
        assert(spec_words(s) == spec_words(s.drop_first()));
    } else {
        lemma_word_length_bound(s);
        let n = spec_word_length(s) as int;
        let word = s.subrange(0, n);
        let rest = s.subrange(n, s.len() as int);
        lemma_words_unbroken(rest);
        assert forall|k: int| 0 <= k < word.len() implies !spec_is_whitespace(#[trigger] word[k]) by {
            lemma_first_word_unbroken(s, k);
        }
        assert(spec_words(s) == seq![word] + spec_words(rest));
        assert forall|i: int| 0 <= i < spec_words(s).len() implies spec_unbroken(
            #[trigger] spec_words(s)[i],
        ) by {
            if i > 0 {
                assert(spec_words(s)[i] == spec_words(rest)[i - 1]);
            } else {
                assert(spec_words(s)[0] == word);
            }
        }
    }
}

proof fn lemma_fill_fits(words: Seq<Seq<char>>, max: nat, current: Seq<char>)
    requires
        forall|i: int| 0 <= i < words.len() ==> spec_unbroken(#[trigger] words[i]),
        spec_fits(current, max),
    ensures
        forall|i: int| 0 <= i < spec_fill(words, max, current).len() ==> spec_fits(
            #[trigger] spec_fill(words, max, current)[i],
            max,
        ),
    decreases words.len(),
{
    if words.len() > 0 {
        let word = words[0];
        assert(spec_unbroken(word));
        assert forall|i: int| 0 <= i < words.drop_first().len() implies spec_unbroken(
            #[trigger] words.drop_first()[i],
        ) by {
            assert(words.drop_first()[i] == words[i + 1]);
        }
        if current.len() > 0 && current.len() + 1 + word.len() > max {
            lemma_fill_fits(words.drop_first(), max, word);
            let tail = spec_fill(words.drop_first(), max, word);
            assert forall|i: int| 0 <= i < spec_fill(words, max, current).len() implies spec_fits(
                #[trigger] spec_fill(words, max, current)[i],
                max,
            ) by {
                if i > 0 {
                    assert(spec_fill(words, max, current)[i] == tail[i - 1]);
                }
            }
        } else {
            let next = if current.len() > 0 {
                current + seq![' '] + word
            } else {
                word
            };
            assert(spec_fits(next, max));
            assert(spec_fill(words, max, current) == spec_fill(words.drop_first(), max, next));
            lemma_fill_fits(words.drop_first(), max, next);
        }
    } else {
        assert(spec_fill(words, max, current) == seq![current]);
        assert forall|i: int| 0 <= i < spec_fill(words, max, current).len() implies spec_fits(
            #[trigger] spec_fill(words, max, current)[i],
            max,
        ) by {
            assert(spec_fill(words, max, current)[i] == current);
        }
    }
}

proof fn lemma_wrap_lines_fit(t: Seq<char>, max: nat)
    ensures
        forall|i: int| 0 <= i < spec_wrap_lines(t, max).len() ==> spec_fits(
            #[trigger] spec_wrap_lines(t, max)[i],
            max,
        ),
    decreases t.len(),
{
    if t.len() > 0 {
        lemma_line_length_bound(t);
        let e = spec_line_length(t) as int;
        let raw = t.subrange(0, e);
        let line = if e < t.len() && raw.len() > 0 && raw.last() == '\r' {
            raw.drop_last()
        } else {
            raw
        };
        let rest = if e < t.len() {
            t.subrange(e + 1, t.len() as int)
        } else {
            Seq::empty()
        };
        lemma_wrap_lines_fit(rest, max);
        let head = spec_wrap_line(line, max);
        if spec_trim(line).len() != 0 {
            lemma_words_unbroken(line);
            lemma_fill_fits(spec_words(line), max, Seq::empty());
        }
        assert forall|i: int| 0 <= i < head.len() implies spec_fits(#[trigger] head[i], max) by {}
        let tail = spec_wrap_lines(rest, max);
        assert(spec_wrap_lines(t, max) == head + tail);
        assert forall|i: int| 0 <= i < spec_wrap_lines(t, max).len() implies spec_fits(
            #[trigger] spec_wrap_lines(t, max)[i],
            max,
        ) by {
            if i >= head.len() {
                assert(spec_wrap_lines(t, max)[i] == tail[i - head.len()]);
            } else {
                assert(spec_wrap_lines(t, max)[i] == head[i]);
            }
        }
    }
}

/// A law of the license viewer: every display line of a wrapped text fits
/// the viewer's width (at least one character), or is a single word too
/// long to break.
pub proof fn law_wrapped_lines_fit(text: Seq<char>, maximum: nat)
    ensures
        forall|i: int| 0 <= i < spec_wrap_text(text, maximum).len() ==> spec_fits(
            #[trigger] spec_wrap_text(text, maximum)[i],
            if maximum < 1 { 1 } else { maximum },
        ),
{
    lemma_wrap_lines_fit(text, if maximum < 1 { 1 } else { maximum });
}

} // verus!
