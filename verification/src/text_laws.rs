//! What holds of every text.

use vstd::prelude::*;

use crate::text;

verus! {

// ---------------------------------------------------------------------------
// Trimming
// ---------------------------------------------------------------------------

proof fn lemma_trim_start_splits(s: Seq<char>) -> (front: Seq<char>)
    ensures
        s == front + text::trim_start(s),
        text::is_blank(front),
        text::trim_start(s).len() > 0 ==> !text::is_whitespace(text::trim_start(s)[0]),
    decreases s.len(),
{
    if s.len() > 0 && text::is_whitespace(s[0]) {
        let rest = lemma_trim_start_splits(s.skip(1));
        let front = seq![s[0]] + rest;
        assert(s =~= seq![s[0]] + s.skip(1));
        assert(s =~= front + text::trim_start(s));
        assert forall|i: int| 0 <= i < front.len() implies text::is_whitespace(
            #[trigger] front[i],
        ) by {
            if i > 0 {
                assert(front[i] == rest[i - 1]);
            }
        }
        front
    } else {
        assert(s =~= Seq::empty() + s);
        Seq::empty()
    }
}

proof fn lemma_trim_end_splits(s: Seq<char>) -> (back: Seq<char>)
    ensures
        s == text::trim_end(s) + back,
        text::is_blank(back),
        text::trim_end(s).len() > 0 ==> !text::is_whitespace(text::trim_end(s).last()),
    decreases s.len(),
{
    if s.len() > 0 && text::is_whitespace(s.last()) {
        let rest = lemma_trim_end_splits(s.drop_last());
        let back = rest.push(s.last());
        assert(s =~= s.drop_last().push(s.last()));
        assert(s =~= text::trim_end(s) + back);
        back
    } else {
        assert(s =~= s + Seq::empty());
        Seq::empty()
    }
}

/// Trimming takes nothing but white space away, and only at the two ends: a text
/// is what is left of it between two runs of white space, and what is left does
/// not begin or end with any.
pub proof fn law_trimming_takes_white_space_at_the_ends(s: Seq<char>)
    ensures
        exists|front: Seq<char>, back: Seq<char>|
            text::is_blank(front) && text::is_blank(back) && s == #[trigger] (front + text::trimmed(
                s,
            ) + back),
        text::trimmed(s).len() > 0 ==> {
            &&& !text::is_whitespace(text::trimmed(s)[0])
            &&& !text::is_whitespace(text::trimmed(s).last())
        },
        text::is_blank(s) ==> text::trimmed(s).len() == 0,
{
    let front = lemma_trim_start_splits(s);
    let started = text::trim_start(s);
    let back = lemma_trim_end_splits(started);
    assert(s =~= front + text::trimmed(s) + back);
    text::lemma_trimmed_empty_iff_blank(s);
    if text::trimmed(s).len() > 0 {
        assert(text::trimmed(s)[0] == started[0]);
    }
}

/// A text that begins and ends with something else than white space is left as
/// it is, and trimming twice is trimming once.
pub proof fn law_trimmed_texts_stay(s: Seq<char>)
    ensures
        s.len() > 0 && !text::is_whitespace(s[0]) && !text::is_whitespace(s.last())
            ==> text::trimmed(s) == s,
        text::trimmed(text::trimmed(s)) == text::trimmed(s),
{
    law_trimming_takes_white_space_at_the_ends(s);
}

/// White space is what separates words: blanks, tabs and ends of lines, and no
/// letter, digit or mark that can be printed in ASCII.
pub proof fn law_white_space_separates(c: char)
    ensures
        text::is_whitespace(' '),
        text::is_whitespace('\t'),
        text::is_whitespace('\n'),
        text::is_whitespace('\r'),
        '!' <= c <= '~' ==> !text::is_whitespace(c),
{
}

// ---------------------------------------------------------------------------
// Lines
// ---------------------------------------------------------------------------

proof fn lemma_index_in_rest(s: Seq<char>, c: char, skipped: int, from: int)
    requires
        0 <= skipped <= from <= s.len(),
    ensures
        text::index_of_char(s, c, from) == skipped + text::index_of_char(
            s.skip(skipped),
            c,
            from - skipped,
        ),
    decreases s.len() - from,
{
    if from < s.len() {
        assert(s.skip(skipped)[from - skipped] == s[from]);
        if s[from] != c {
            lemma_index_in_rest(s, c, skipped, from + 1);
        }
    }
}

proof fn lemma_lines_in_rest(s: Seq<char>, skipped: int, from: int)
    requires
        0 <= skipped <= from <= s.len(),
    ensures
        text::lines_from(s, from) == text::lines_from(s.skip(skipped), from - skipped),
    decreases s.len() - from,
{
    if from < s.len() {
        let rest = s.skip(skipped);
        lemma_index_in_rest(s, '\n', skipped, from);
        text::lemma_index_of_char(s, '\n', from);
        let end = text::index_of_char(s, '\n', from);
        if end < s.len() {
            lemma_lines_in_rest(s, skipped, end + 1);
            assert(s.subrange(from, end) =~= rest.subrange(from - skipped, end - skipped));
        } else {
            assert(s.subrange(from, s.len() as int) =~= rest.subrange(
                from - skipped,
                rest.len() as int,
            ));
        }
    }
}

/// Whether a text is one line: it holds no newline, and no carriage return at its
/// end.
pub open spec fn is_line(s: Seq<char>) -> bool {
    &&& !s.contains('\n')
    &&& s.len() > 0 ==> s.last() != '\r'
}

/// A line and a newline before a text add that line before its lines; a line by
/// itself is its only line, and no text has no lines.
pub proof fn law_lines_end_at_newlines(line: Seq<char>, rest: Seq<char>)
    requires
        is_line(line),
    ensures
        text::lines_of(line + "\n"@ + rest) == seq![line] + text::lines_of(rest),
        line.len() > 0 ==> text::lines_of(line) == seq![line],
        text::lines_of(Seq::empty()).len() == 0,
{
    reveal_strlit("\n");
    let whole = line + "\n"@ + rest;
    let n = line.len() as int;
    text::lemma_index_of_char(whole, '\n', 0);
    let end = text::index_of_char(whole, '\n', 0);
    assert(whole[n] == '\n');
    if end < n {
        assert(line[end] == whole[end]);
        assert(line.contains('\n'));
    }
    assert(end == n);
    assert(whole.subrange(0, n) =~= line);
    lemma_lines_in_rest(whole, n + 1, n + 1);
    assert(whole.skip(n + 1) =~= rest);
    if n > 0 {
        text::lemma_index_of_char(line, '\n', 0);
        let own = text::index_of_char(line, '\n', 0);
        if own < n {
            assert(line.contains('\n'));
        }
        assert(line.subrange(0, n) =~= line);
    }
}

/// A line that ended in a carriage return and a newline is the same line.
pub proof fn law_carriage_returns_belong_to_the_end(line: Seq<char>, rest: Seq<char>)
    requires
        is_line(line),
    ensures
        text::lines_of(line + "\r\n"@ + rest) == text::lines_of(line + "\n"@ + rest),
{
    reveal_strlit("\r\n");
    let whole = line + "\r\n"@ + rest;
    let n = line.len() as int;
    law_lines_end_at_newlines(line, rest);
    text::lemma_index_of_char(whole, '\n', 0);
    let end = text::index_of_char(whole, '\n', 0);
    assert(whole[n] == '\r');
    assert(whole[n + 1] == '\n');
    if end < n {
        assert(line[end] == whole[end]);
        assert(line.contains('\n'));
    }
    assert(end == n + 1);
    assert(whole.subrange(0, n + 1).drop_last() =~= line);
    lemma_lines_in_rest(whole, n + 2, n + 2);
    assert(whole.skip(n + 2) =~= rest);
}

// ---------------------------------------------------------------------------
// Joining
// ---------------------------------------------------------------------------

/// Joining puts a separator between what is joined and nothing at the ends; a
/// part by itself is left as it is.
pub proof fn law_joining_puts_the_separator_between(
    first: Seq<Seq<char>>,
    second: Seq<Seq<char>>,
    part: Seq<char>,
    sep: Seq<char>,
)
    ensures
        text::joined(Seq::empty(), sep).len() == 0,
        text::joined(seq![part], sep) == part,
        first.len() > 0 && second.len() > 0 ==> text::joined(first + second, sep) == text::joined(
            first,
            sep,
        ) + sep + text::joined(second, sep),
{
    lemma_joined_parts(first, second, sep);
}

proof fn lemma_joined_parts(first: Seq<Seq<char>>, second: Seq<Seq<char>>, sep: Seq<char>)
    ensures
        first.len() > 0 && second.len() > 0 ==> text::joined(first + second, sep) == text::joined(
            first,
            sep,
        ) + sep + text::joined(second, sep),
    decreases second.len(),
{
    if first.len() > 0 && second.len() > 0 {
        let whole = first + second;
        assert(whole.drop_last() =~= first + second.drop_last());
        assert(whole.last() == second.last());
        if second.len() == 1 {
            assert(whole.drop_last() =~= first);
        } else {
            lemma_joined_parts(first, second.drop_last(), sep);
            assert(text::joined(whole, sep) =~= text::joined(first, sep) + sep + text::joined(
                second,
                sep,
            ));
        }
    }
}

proof fn lemma_lines_joined_from(lines: Seq<Seq<char>>)
    requires
        lines.len() > 0,
        forall|i: int| 0 <= i < lines.len() ==> is_line(#[trigger] lines[i]),
        lines.last().len() > 0,
    ensures
        text::lines_of(text::joined(lines, "\n"@)) == lines,
    decreases lines.len(),
{
    let head = lines[0];
    law_lines_end_at_newlines(head, Seq::empty());
    if lines.len() == 1 {
        assert(lines =~= seq![head]);
    } else {
        let rest = lines.skip(1);
        assert forall|i: int| 0 <= i < rest.len() implies is_line(#[trigger] rest[i]) by {
            assert(rest[i] == lines[i + 1]);
        }
        lemma_lines_joined_from(rest);
        lemma_joined_parts(seq![head], rest, "\n"@);
        assert(lines =~= seq![head] + rest);
        law_lines_end_at_newlines(head, text::joined(rest, "\n"@));
    }
}

/// The lines of a text that was joined of lines are those lines, where the last
/// of them holds something.
pub proof fn law_joined_lines_read_back(lines: Seq<Seq<char>>)
    requires
        lines.len() > 0,
        forall|i: int| 0 <= i < lines.len() ==> is_line(#[trigger] lines[i]),
        lines.last().len() > 0,
    ensures
        text::lines_of(text::joined(lines, "\n"@)) == lines,
{
    lemma_lines_joined_from(lines);
}

// ---------------------------------------------------------------------------
// Letters and numbers
// ---------------------------------------------------------------------------

/// Lower case changes the ASCII capitals to their small letters and nothing else,
/// each where it stands.
pub proof fn law_lower_case_changes_capitals_only(s: Seq<char>, at: int)
    requires
        0 <= at < s.len(),
    ensures
        text::lowered(s).len() == s.len(),
        !('A' <= s[at] <= 'Z') ==> text::lowered(s)[at] == s[at],
        'A' <= s[at] <= 'Z' ==> text::lowered(s)[at] as int == s[at] as int + 32,
        text::lowered(text::lowered(s)) == text::lowered(s),
{
    assert(text::lowered(text::lowered(s)) =~= text::lowered(s));
}

/// A number in decimal reads back, two numbers are written alike only where they
/// are the same, and no number but zero begins with a nought.
pub proof fn law_decimals_read_back(n: nat, m: nat, max: nat)
    ensures
        n <= max ==> text::number_in(text::decimal(n), max) == Some(n),
        text::decimal(n) == text::decimal(m) ==> n == m,
        n > 0 ==> text::decimal(n)[0] != '0',
        text::decimal(0) == seq!['0'],
{
    let most = if n < m {
        m
    } else {
        n
    };
    text::lemma_decimal_reads_back(n, most);
    text::lemma_decimal_reads_back(m, most);
    if n <= max {
        text::lemma_decimal_reads_back(n, max);
    }
    lemma_no_leading_nought(n);
    assert(text::decimal(0) =~= seq!['0']);
}

proof fn lemma_no_leading_nought(n: nat)
    ensures
        text::decimal(n).len() > 0,
        n > 0 ==> text::decimal(n)[0] != '0',
    decreases n,
{
    if n >= 10 {
        lemma_no_leading_nought(n / 10);
    }
}

/// A number is read exactly where it is written in digits, after a plus sign at
/// most, and does not exceed the bound: a text with anything else in it is none.
pub proof fn law_only_numbers_are_read(s: Seq<char>, max: nat, at: int)
    requires
        0 < at < s.len(),
        !('0' <= s[at] <= '9'),
    ensures
        text::number_in(s, max) is None,
        text::number_in(Seq::empty(), max) is None,
{
    let digits = text::unsigned_digits(s);
    if s[0] == '+' {
        assert(digits[at - 1] == s[at]);
    }
}

/// Texts are ordered as in a dictionary: the order is strict, and any two
/// different texts stand one before the other.
pub proof fn law_texts_are_ordered(a: Seq<char>, b: Seq<char>)
    ensures
        !text::comes_before(a, a),
        !(text::comes_before(a, b) && text::comes_before(b, a)),
        a != b ==> text::comes_before(a, b) || text::comes_before(b, a),
        a.len() < b.len() && b.take(a.len() as int) == a ==> text::comes_before(a, b),
    decreases a.len(),
{
    if a.len() > 0 && b.len() > 0 && a[0] == b[0] {
        let (c, d) = (a.skip(1), b.skip(1));
        law_texts_are_ordered(c, d);
        law_texts_are_ordered(c, c);
        if c == d {
            assert(a =~= seq![a[0]] + c);
            assert(b =~= seq![b[0]] + d);
            assert(a == b);
        }
        if a.len() < b.len() && b.take(a.len() as int) == a {
            assert(d.take(c.len() as int) =~= b.take(a.len() as int).skip(1));
        }
    } else if a.len() > 0 {
        law_texts_are_ordered(a.skip(1), a.skip(1));
        if b.len() > 0 && b.take(a.len() as int) == a && a.len() < b.len() {
            assert(b.take(a.len() as int)[0] == b[0]);
        }
    } else if b.len() == 0 {
        assert(a =~= b);
    }
}

// ---------------------------------------------------------------------------
// Width, words and paths
// ---------------------------------------------------------------------------

/// Filling up changes nothing but the width: the text stands at its side, and
/// only the filling is added.
pub proof fn law_padding_only_widens(s: Seq<char>, c: char, width: nat, at: int)
    ensures
        text::padded(s, width).len() >= width,
        text::padded(s, width).len() >= s.len(),
        text::padded(s, width).take(s.len() as int) == s,
        s.len() <= at < text::padded(s, width).len() ==> text::padded(s, width)[at] == ' ',
        s.len() >= width ==> text::padded(s, width) == s,
        s.len() <= width ==> text::padded(s, width).len() == width,
        text::has_suffix(text::left_padded(s, c, width), s),
        s.len() <= width ==> text::left_padded(s, c, width).len() == width,
        s.len() >= width ==> text::left_padded(s, c, width) == s,
        0 <= at < text::left_padded(s, c, width).len() - s.len() ==> text::left_padded(
            s,
            c,
            width,
        )[at] == c,
{
    assert(text::padded(s, width).take(s.len() as int) =~= s);
    let left = text::left_padded(s, c, width);
    assert(left.skip(left.len() - s.len()) =~= s);
}

/// A cut takes from the end that is not wanted: what is left is the beginning, or
/// the end, of the text, and as long as the limit allows.
pub proof fn law_cuts_keep_their_end(s: Seq<char>, limit: nat)
    ensures
        text::has_prefix(s, text::prefix_of(s, limit)),
        text::has_suffix(s, text::suffix_of(s, limit)),
        text::prefix_of(s, limit).len() == text::suffix_of(s, limit).len(),
        text::prefix_of(s, limit).len() == (if s.len() < limit {
            s.len()
        } else {
            limit
        }),
{
    let head = text::prefix_of(s, limit);
    let tail = text::suffix_of(s, limit);
    assert(s.take(head.len() as int) =~= head);
    assert(s.skip(s.len() - tail.len()) =~= tail);
}

proof fn lemma_word_end(s: Seq<char>, word: nat, from: int)
    requires
        0 <= from <= word <= s.len(),
        forall|i: int| 0 <= i < word ==> !text::is_whitespace(#[trigger] s[i]),
        word < s.len() ==> text::is_whitespace(s[word as int]),
    ensures
        text::word_end(s, from) == word,
    decreases word - from,
{
    if from < word {
        lemma_word_end(s, word, from + 1);
    }
}

/// The first word of a text is what stands before its first white space, the
/// white space that it begins with aside.
pub proof fn law_first_word_ends_at_white_space(word: Seq<char>, gap: char, rest: Seq<char>)
    requires
        word.len() > 0,
        forall|i: int| 0 <= i < word.len() ==> !text::is_whitespace(#[trigger] word[i]),
        text::is_whitespace(gap),
    ensures
        text::first_word(word) == word,
        text::first_word(word + seq![gap] + rest) == word,
        text::first_word(seq![gap] + word) == word,
{
    let whole = word + seq![gap] + rest;
    lemma_word_end(word, word.len(), 0);
    assert(word.take(word.len() as int) =~= word);
    lemma_word_end(whole, word.len(), 0);
    assert(whole[0] == word[0]);
    assert(whole.take(word.len() as int) =~= word);
    let led = seq![gap] + word;
    assert(led.skip(1) =~= word);
    assert(text::trim_start(word) == word);
}

/// An absolute path stays what it is; any other stands below the directory, with
/// one slash between the two.
pub proof fn law_paths_stand_below_their_directory(directory: Seq<char>, path: Seq<char>)
    ensures
        text::has_suffix(text::joined_path(directory, path), path),
        path.len() > 0 && path[0] == '/' ==> text::joined_path(directory, path) == path,
        path.len() > 0 && path[0] != '/' && directory.len() > 0 ==> {
            let whole = text::joined_path(directory, path);
            &&& text::has_prefix(whole, directory)
            &&& whole[whole.len() - path.len() - 1] == '/'
            &&& whole.len() == directory.len() + path.len() + (if directory.last() == '/' {
                0nat
            } else {
                1nat
            })
        },
{
    reveal_strlit("/");
    let whole = text::joined_path(directory, path);
    assert(whole.skip(whole.len() - path.len()) =~= path);
    if !(path.len() > 0 && path[0] == '/') {
        assert(whole.take(directory.len() as int) =~= directory);
    }
}

} // verus!
