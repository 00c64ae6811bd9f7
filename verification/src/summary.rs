//! The summary of a feed item: its first sentences, kept short.
use vstd::prelude::*;
use vstd::string::*;

use crate::feed::{FeedItem, FeedItemView};
use crate::text::{chars_of, is_white_space, lemma_trimmed_is_inner, trim, trimmed};

verus! {

/// The most characters of a summary before it is cut.
pub const SUMMARY_CHARS: usize = 320;

/// What is summarized where an item holds no text at all.
pub const NO_DETAILS: &'static str = "Источник не прислал деталей.";

/// What stands for a summary that came out empty.
pub const DETAILS_SOON: &'static str = "Источник лаконичен — подробности скоро.";

/// Whether `c` closes a sentence.
pub open spec fn ends_sentence(c: char) -> bool {
    c == '.' || c == '!' || c == '?'
}

/// `s` cut at every character that closes a sentence; those characters are
/// left out.
pub open spec fn pieces(s: Seq<char>) -> Seq<Seq<char>>
    decreases s.len(),
{
    if s.len() == 0 {
        seq![Seq::<char>::empty()]
    } else {
        let before = pieces(s.drop_last());
        if ends_sentence(s.last()) {
            before.push(Seq::<char>::empty())
        } else {
            before.drop_last().push(before.last().push(s.last()))
        }
    }
}

/// The pieces, each trimmed, without those that are then empty.
pub open spec fn trimmed_nonempty(ps: Seq<Seq<char>>) -> Seq<Seq<char>>
    decreases ps.len(),
{
    if ps.len() == 0 {
        Seq::empty()
    } else {
        let before = trimmed_nonempty(ps.drop_last());
        let piece = trimmed(ps.last());
        if piece.len() > 0 {
            before.push(piece)
        } else {
            before
        }
    }
}

/// The sentences of `s`, each without the character that closes it.
pub open spec fn sentences(s: Seq<char>) -> Seq<Seq<char>> {
    trimmed_nonempty(pieces(s))
}

/// The first two of `parts`, each closed by a full stop, with a space between.
pub open spec fn condensed(parts: Seq<Seq<char>>) -> Seq<char> {
    if parts.len() == 0 {
        Seq::empty()
    } else if parts.len() == 1 {
        parts[0] + "."@
    } else {
        parts[0] + "."@ + " "@ + parts[1] + "."@
    }
}

/// `s` cut after `max_chars` characters, with an ellipsis where something was
/// cut off; an empty text is replaced.
pub open spec fn truncated(s: Seq<char>, max_chars: nat) -> Seq<char> {
    if s.len() == 0 {
        DETAILS_SOON@
    } else if s.len() > max_chars {
        s.take(max_chars as int) + "..."@
    } else {
        s
    }
}

/// The text of an item that its summary is drawn from: the description, else
/// the content, else the title.
pub open spec fn summary_source(item: FeedItemView) -> Seq<char> {
    match (item.description, item.content, item.title) {
        (Some(description), _, _) => description,
        (None, Some(content), _) => content,
        (None, None, Some(title)) => title,
        (None, None, None) => NO_DETAILS@,
    }
}

/// The summary of an item.
pub open spec fn summary(item: FeedItemView) -> Seq<char> {
    truncated(condensed(sentences(summary_source(item))), SUMMARY_CHARS as nat)
}

/// Appends the piece, trimmed, unless nothing is left of it.
fn push_sentence(found: &mut Vec<String>, piece: &str, Ghost(before): Ghost<Seq<Seq<char>>>)
    requires
        old(found).deep_view() == trimmed_nonempty(before),
    ensures
        final(found).deep_view() == trimmed_nonempty(before.push(piece@)),
{
    let sentence = trim(piece);
    assert(before.push(piece@).drop_last() =~= before);
    if !sentence.is_empty() {
        found.push(sentence.to_string());
    }
}

/// Splits `text` into its sentences.
pub fn split_sentences(text: &str) -> (found: Vec<String>)
    ensures
        found.deep_view() == sentences(text@),
{
    let chars = chars_of(text);
    let mut found: Vec<String> = Vec::new();
    let mut start: usize = 0;
    let mut i: usize = 0;
    let ghost mut before: Seq<Seq<char>> = Seq::empty();
    assert(text@.take(0) =~= Seq::<char>::empty());
    while i < chars.len()
        invariant
            start <= i <= chars.len(),
            chars@ == text@,
            pieces(text@.take(i as int)) == before.push(text@.subrange(start as int, i as int)),
            found.deep_view() == trimmed_nonempty(before),
        decreases chars.len() - i,
    {
        let c = chars[i];
        let ghost open = text@.subrange(start as int, i as int);
        assert(text@.take(i + 1).drop_last() =~= text@.take(i as int));
        if c == '.' || c == '!' || c == '?' {
            push_sentence(&mut found, text.substring_char(start, i), Ghost(before));
            proof {
                before = before.push(open);
            }
            start = i + 1;
            assert(text@.subrange(start as int, i + 1) =~= Seq::<char>::empty());
        } else {
            assert(text@.subrange(start as int, i + 1) =~= open.push(c));
        }
        i += 1;
    }
    assert(text@.take(chars.len() as int) =~= text@);
    push_sentence(&mut found, text.substring_char(start, i), Ghost(before));
    found
}

/// Draws short summaries out of feed items.
pub struct AISummarizer;

impl AISummarizer {
    /// The first two sentences of an item's text, cut to a fixed length.
    pub fn summarize(item: &FeedItem) -> (text: String)
        ensures
            text@ == summary(item.deep_view()),
    {
        let description: &str = match (&item.description, &item.content, &item.title) {
            (Some(description), _, _) => description.as_str(),
            (None, Some(content), _) => content.as_str(),
            (None, None, Some(title)) => title.as_str(),
            (None, None, None) => NO_DETAILS,
        };
        let parts = split_sentences(description);
        let mut body = String::new();
        if parts.len() > 0 {
            body.append(parts[0].as_str());
            body.append(".");
            if parts.len() > 1 {
                body.append(" ");
                body.append(parts[1].as_str());
                body.append(".");
            }
        }
        Self::truncate(body.as_str(), SUMMARY_CHARS)
    }

    /// Cuts `text` after `max_chars` characters and marks the cut.
    pub fn truncate(text: &str, max_chars: usize) -> (result: String)
        ensures
            result@ == truncated(text@, max_chars as nat),
    {
        if text.is_empty() {
            return DETAILS_SOON.to_string();
        }
        if text.unicode_len() > max_chars {
            let mut result = text.substring_char(0, max_chars).to_string();
            result.append("...");
            result
        } else {
            text.to_string()
        }
    }
}

proof fn lemma_pieces_hold_no_end(s: Seq<char>)
    ensures
        pieces(s).len() > 0,
        forall|k: int, i: int|
            0 <= k < pieces(s).len() && 0 <= i < pieces(s)[k].len() ==> !ends_sentence(
                #[trigger] pieces(s)[k][i],
            ),
    decreases s.len(),
{
    if s.len() > 0 {
        lemma_pieces_hold_no_end(s.drop_last());
    }
}

/// Whether `p` can stand as a sentence: not empty, no white space at either
/// end, and no character that closes a sentence.
pub open spec fn is_sentence(p: Seq<char>) -> bool {
    &&& p.len() > 0
    &&& !is_white_space(p[0])
    &&& !is_white_space(p.last())
    &&& forall|i: int| 0 <= i < p.len() ==> !ends_sentence(#[trigger] p[i])
}

proof fn lemma_trimmed_nonempty_are_sentences(ps: Seq<Seq<char>>)
    requires
        forall|k: int, i: int|
            0 <= k < ps.len() && 0 <= i < ps[k].len() ==> !ends_sentence(#[trigger] ps[k][i]),
    ensures
        forall|k: int|
            0 <= k < trimmed_nonempty(ps).len() ==> is_sentence(
                #[trigger] trimmed_nonempty(ps)[k],
            ),
    decreases ps.len(),
{
    if ps.len() > 0 {
        lemma_trimmed_nonempty_are_sentences(ps.drop_last());
        lemma_trimmed_is_inner(ps.last());
        let before = trimmed_nonempty(ps.drop_last());
        assert forall|k: int| 0 <= k < trimmed_nonempty(ps).len() implies is_sentence(
            #[trigger] trimmed_nonempty(ps)[k],
        ) by {
            if k < before.len() {
                assert(trimmed_nonempty(ps)[k] == before[k]);
            }
        }
    }
}

/// Every sentence found in a text is non-empty, is trimmed, and holds no
/// character that closes a sentence: the full stop put behind it in a summary
/// is the only one.
pub proof fn law_sentences_are_clean(s: Seq<char>)
    ensures
        forall|k: int| 0 <= k < sentences(s).len() ==> is_sentence(#[trigger] sentences(s)[k]),
{
    lemma_pieces_hold_no_end(s);
    lemma_trimmed_nonempty_are_sentences(pieces(s));
}

/// What is condensed out of a text has no white space around it.
pub proof fn law_condensed_is_trimmed(s: Seq<char>)
    ensures
        trimmed(condensed(sentences(s))) == condensed(sentences(s)),
{
    law_sentences_are_clean(s);
    reveal_strlit(".");
    reveal_strlit(" ");
}

/// A summary is never empty and never longer than the limit and an ellipsis.
pub proof fn law_summary_length(item: FeedItemView)
    ensures
        0 < summary(item).len() <= SUMMARY_CHARS + 3,
{
    reveal_strlit("...");
    reveal_strlit("Источник лаконичен — подробности скоро.");
}

/// A text within the limit is left as it is.
pub proof fn law_truncate_keeps_short_text(s: Seq<char>, max_chars: nat)
    requires
        0 < s.len() <= max_chars,
    ensures
        truncated(s, max_chars) == s,
{
}

proof fn lemma_pieces_of_two_texts(a: Seq<char>, end: char, b: Seq<char>)
    requires
        ends_sentence(end),
    ensures
        pieces(a.push(end) + b) == pieces(a) + pieces(b),
    decreases b.len(),
{
    let whole = a.push(end) + b;
    lemma_pieces_hold_no_end(a);
    lemma_pieces_hold_no_end(b);
    if b.len() == 0 {
        assert(whole =~= a.push(end));
        assert(whole.drop_last() =~= a);
        assert(pieces(whole) =~= pieces(a) + pieces(b));
    } else {
        lemma_pieces_of_two_texts(a, end, b.drop_last());
        lemma_pieces_hold_no_end(b.drop_last());
        assert(whole.drop_last() =~= a.push(end) + b.drop_last());
        let before = pieces(b.drop_last());
        assert((pieces(a) + before).drop_last() =~= pieces(a) + before.drop_last());
        assert(pieces(whole) =~= pieces(a) + pieces(b));
    }
}

proof fn lemma_trimmed_nonempty_of_two_lists(ps: Seq<Seq<char>>, qs: Seq<Seq<char>>)
    ensures
        trimmed_nonempty(ps + qs) == trimmed_nonempty(ps) + trimmed_nonempty(qs),
    decreases qs.len(),
{
    if qs.len() == 0 {
        assert(ps + qs =~= ps);
    } else {
        lemma_trimmed_nonempty_of_two_lists(ps, qs.drop_last());
        assert((ps + qs).drop_last() =~= ps + qs.drop_last());
        assert(trimmed_nonempty(ps + qs) =~= trimmed_nonempty(ps) + trimmed_nonempty(qs));
    }
}

proof fn lemma_one_piece(s: Seq<char>)
    requires
        forall|i: int| 0 <= i < s.len() ==> !ends_sentence(#[trigger] s[i]),
    ensures
        pieces(s) == seq![s],
    decreases s.len(),
{
    if s.len() > 0 {
        lemma_one_piece(s.drop_last());
        assert(s.drop_last().push(s.last()) =~= s);
        assert(pieces(s) =~= seq![s]);
    } else {
        assert(s =~= Seq::<char>::empty());
    }
}

/// A full stop, an exclamation mark and a question mark each divide a text: its
/// sentences are those in front of the sign and then those behind it.
pub proof fn law_signs_divide_a_text(a: Seq<char>, sign: char, b: Seq<char>)
    requires
        sign == '.' || sign == '!' || sign == '?',
    ensures
        sentences(a.push(sign) + b) == sentences(a) + sentences(b),
{
    lemma_pieces_of_two_texts(a, sign, b);
    lemma_trimmed_nonempty_of_two_lists(pieces(a), pieces(b));
}

/// A text without such a sign is one sentence, without the white space around
/// it, and none where nothing else is left of it.
pub proof fn law_undivided_text_is_one_sentence(s: Seq<char>)
    requires
        forall|i: int| 0 <= i < s.len() ==> !(s[i] == '.' || s[i] == '!' || s[i] == '?'),
    ensures
        trimmed(s).len() > 0 ==> sentences(s) == seq![trimmed(s)],
        trimmed(s).len() == 0 ==> sentences(s).len() == 0,
{
    lemma_one_piece(s);
    let ps = seq![s];
    assert(ps.drop_last() =~= Seq::<Seq<char>>::empty());
    assert(trimmed_nonempty(ps.drop_last()) =~= Seq::<Seq<char>>::empty());
    if trimmed(s).len() > 0 {
        assert(sentences(s) =~= seq![trimmed(s)]);
    }
}

/// Two sentences, each closed by a full stop, with a space between: so a text
/// is condensed that has two or more, whatever comes behind the second.
pub proof fn law_condensed_is_the_first_two(
    first: Seq<char>,
    second: Seq<char>,
    more: Seq<Seq<char>>,
)
    ensures
        condensed(seq![first, second] + more) == first + seq!['.', ' '] + second + seq!['.'],
        condensed(seq![first]) == first + seq!['.'],
        condensed(Seq::empty()) == Seq::<char>::empty(),
{
    reveal_strlit(".");
    reveal_strlit(" ");
    assert(condensed(seq![first, second] + more) =~= first + seq!['.', ' '] + second + seq!['.']);
    assert(condensed(seq![first]) =~= first + seq!['.']);
}

/// What follows the second sentence does not change the condensed text.
pub proof fn law_condensed_depends_on_two_sentences(parts: Seq<Seq<char>>)
    requires
        parts.len() >= 2,
    ensures
        condensed(parts) == condensed(parts.take(2)),
        condensed(parts) == parts[0] + seq!['.', ' '] + parts[1] + seq!['.'],
{
    law_condensed_is_the_first_two(parts[0], parts[1], parts.skip(2));
    law_condensed_is_the_first_two(parts[0], parts[1], Seq::empty());
    assert(parts =~= seq![parts[0], parts[1]] + parts.skip(2));
    assert(parts.take(2) =~= seq![parts[0], parts[1]] + Seq::<Seq<char>>::empty());
}

/// A text over the limit is cut to as many characters as the limit allows, its
/// first ones, and three dots follow.
pub proof fn law_truncate_cuts_long_text(s: Seq<char>, max_chars: nat)
    requires
        s.len() > max_chars,
    ensures
        truncated(s, max_chars).len() == max_chars + 3,
        truncated(s, max_chars).take(max_chars as int) == s.take(max_chars as int),
        truncated(s, max_chars).skip(max_chars as int) == seq!['.', '.', '.'],
{
    reveal_strlit("...");
    assert(truncated(s, max_chars).take(max_chars as int) =~= s.take(max_chars as int));
    assert(truncated(s, max_chars).skip(max_chars as int) =~= seq!['.', '.', '.']);
}

/// An empty text is replaced by the same words under every limit.
pub proof fn law_truncate_replaces_empty_text(max_chars: nat)
    ensures
        truncated(Seq::empty(), max_chars) == "Источник лаконичен — подробности скоро."@,
{
}

/// The summary is drawn from the description; without one from the content, and
/// without both from the title. What else the item holds does not matter.
pub proof fn law_summary_is_drawn_from_one_text(item: FeedItemView)
    ensures
        item.description matches Some(text) ==> summary_source(item) == text,
        item.description is None ==> (item.content matches Some(text) ==> summary_source(item)
            == text),
        item.description is None && item.content is None ==> (item.title matches Some(text)
            ==> summary_source(item) == text),
        item.description is None && item.content is None && item.title is None
            ==> summary_source(item) == "Источник не прислал деталей."@,
{
}

/// A description that begins with two sentences is summarized by these two,
/// whatever follows them; where they take up more than the limit, by their
/// beginning and three dots.
pub proof fn law_summary_of_two_sentences(
    item: FeedItemView,
    first: Seq<char>,
    sign: char,
    second: Seq<char>,
    other_sign: char,
    rest: Seq<char>,
)
    requires
        item.description == Some(first.push(sign) + (second.push(other_sign) + rest)),
        sign == '.' || sign == '!' || sign == '?',
        other_sign == '.' || other_sign == '!' || other_sign == '?',
        trimmed(first).len() > 0,
        trimmed(second).len() > 0,
        forall|i: int|
            0 <= i < first.len() ==> !(first[i] == '.' || first[i] == '!' || first[i] == '?'),
        forall|i: int|
            0 <= i < second.len() ==> !(second[i] == '.' || second[i] == '!' || second[i] == '?'),
    ensures
        ({
            let two = trimmed(first) + seq!['.', ' '] + trimmed(second) + seq!['.'];
            if two.len() <= 320 {
                summary(item) == two
            } else {
                summary(item) == two.take(320) + seq!['.', '.', '.']
            }
        }),
{
    let two = trimmed(first) + seq!['.', ' '] + trimmed(second) + seq!['.'];
    law_signs_divide_a_text(first, sign, second.push(other_sign) + rest);
    law_signs_divide_a_text(second, other_sign, rest);
    law_undivided_text_is_one_sentence(first);
    law_undivided_text_is_one_sentence(second);
    let parts = sentences(summary_source(item));
    assert(parts =~= seq![trimmed(first), trimmed(second)] + sentences(rest));
    law_condensed_is_the_first_two(trimmed(first), trimmed(second), sentences(rest));
    if two.len() > 320 {
        reveal_strlit("...");
        assert(summary(item) =~= two.take(320) + seq!['.', '.', '.']);
    }
}

/// A description that is one sentence, with or without a sign behind it, is
/// summarized by this sentence.
pub proof fn law_summary_of_one_sentence(item: FeedItemView, text: Seq<char>, sign: char)
    requires
        item.description == Some(text) || item.description == Some(text.push(sign)),
        sign == '.' || sign == '!' || sign == '?',
        trimmed(text).len() > 0,
        forall|i: int|
            0 <= i < text.len() ==> !(text[i] == '.' || text[i] == '!' || text[i] == '?'),
    ensures
        trimmed(text).len() < 320 ==> summary(item) == trimmed(text).push('.'),
        trimmed(text).len() >= 320 ==> summary(item) == trimmed(text).push('.').take(320) + seq![
            '.',
            '.',
            '.',
        ],
{
    reveal_strlit(".");
    reveal_strlit("...");
    law_undivided_text_is_one_sentence(text);
    law_undivided_text_is_one_sentence(Seq::empty());
    law_signs_divide_a_text(text, sign, Seq::empty());
    lemma_trimmed_is_inner(Seq::empty());
    assert(text.push(sign) + Seq::<char>::empty() =~= text.push(sign));
    assert(sentences(text.push(sign)) =~= seq![trimmed(text)]);
    assert(condensed(seq![trimmed(text)]) =~= trimmed(text).push('.'));
}

/// An item whose text holds no sentence at all gets the words that stand for a
/// summary.
pub proof fn law_summary_without_a_sentence(item: FeedItemView)
    requires
        sentences(summary_source(item)).len() == 0,
    ensures
        summary(item) == "Источник лаконичен — подробности скоро."@,
{
}

/// Splitting a text at one of its signs splits what stands before the sign and
/// what stands behind it, each on its own.
pub proof fn law_split_at_a_sign(
    before: &str,
    sign: char,
    after: &str,
    text: &str,
    first: Vec<String>,
    second: Vec<String>,
    all: Vec<String>,
)
    requires
        sign == '.' || sign == '!' || sign == '?',
        text@ == before@.push(sign) + after@,
        call_ensures(split_sentences, (before,), first),
        call_ensures(split_sentences, (after,), second),
        call_ensures(split_sentences, (text,), all),
    ensures
        all@.len() == first@.len() + second@.len(),
        forall|i: int| 0 <= i < first@.len() ==> (#[trigger] all@[i])@ == first@[i]@,
        forall|i: int|
            first@.len() <= i < all@.len() ==> (#[trigger] all@[i])@ == second@[i
                - first@.len()]@,
{
    law_signs_divide_a_text(before@, sign, after@);
    let joined = first.deep_view() + second.deep_view();
    assert(all.deep_view() == joined);
    assert(all.deep_view().len() == joined.len());
    assert forall|i: int| 0 <= i < first@.len() implies (#[trigger] all@[i])@ == first@[i]@ by {
        assert(all.deep_view()[i] == joined[i]);
    }
    assert forall|i: int| first@.len() <= i < all@.len() implies (#[trigger] all@[i])@ == second@[i
        - first@.len()]@ by {
        assert(all.deep_view()[i] == joined[i]);
    }
}

/// A summary is made of the first two sentences of the item's text, whatever
/// else the text holds, and cut where they are too long.
pub proof fn law_summary_is_made_of_two_sentences(
    item: FeedItem,
    text: &str,
    parts: Vec<String>,
    result: String,
)
    requires
        text@ == summary_source(item.deep_view()),
        call_ensures(split_sentences, (text,), parts),
        call_ensures(AISummarizer::summarize, (&item,), result),
    ensures
        parts@.len() == 0 ==> result@ == "Источник лаконичен — подробности скоро."@,
        parts@.len() == 1 && parts@[0]@.len() < 320 ==> result@ == parts@[0]@ + seq!['.'],
        parts@.len() == 1 && parts@[0]@.len() >= 320 ==> result@ == parts@[0]@.push('.').take(320)
            + seq!['.', '.', '.'],
        parts@.len() >= 2 ==> {
            let two = parts@[0]@ + seq!['.', ' '] + parts@[1]@ + seq!['.'];
            if two.len() <= 320 {
                result@ == two
            } else {
                result@ == two.take(320) + seq!['.', '.', '.']
            }
        },
{
    reveal_strlit(".");
    reveal_strlit("...");
    let found = sentences(summary_source(item.deep_view()));
    assert(parts.deep_view() == found);
    if found.len() == 1 {
        assert(found[0] == parts@[0]@);
        assert(condensed(found) =~= parts@[0]@.push('.'));
    } else if found.len() >= 2 {
        assert(found[0] == parts@[0]@ && found[1] == parts@[1]@);
        law_condensed_depends_on_two_sentences(found);
    }
}

/// A text is cut only where it is too long, and then by what is too much.
pub proof fn law_cut_texts(text: &str, max_chars: usize, result: String)
    requires
        call_ensures(AISummarizer::truncate, (text, max_chars), result),
    ensures
        text@.len() == 0 ==> result@ == "Источник лаконичен — подробности скоро."@,
        0 < text@.len() <= max_chars ==> result@ == text@,
        text@.len() > max_chars ==> result@ == text@.take(max_chars as int) + seq!['.', '.', '.'],
{
    reveal_strlit("...");
}

} // verus!
