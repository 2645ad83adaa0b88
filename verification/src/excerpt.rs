//! Short excerpts of source for people to read.
use vstd::prelude::*;

use crate::text;
use crate::text::Separator;

verus! {

/// The text with every run of white space made one space, and none at the edges.
pub open spec fn flattened(source: Seq<char>) -> Seq<char> {
    text::joined(text::word_runs(source, Separator::WhiteSpace), " "@)
}

/// The flattened text; where it takes more than `maximum` bytes, its longest prefix that
/// does not, followed by an ellipsis.
pub open spec fn bounded_excerpt_of(source: Seq<char>, maximum: nat) -> Seq<char> {
    if text::byte_len(flattened(source)) <= maximum {
        flattened(source)
    } else {
        text::prefix_within(flattened(source), maximum) + "…"@
    }
}

/// The flattened text, cut to `maximum` bytes.
pub fn bounded_excerpt(source: &str, maximum: usize) -> (out: String)
    ensures
        out@ == bounded_excerpt_of(source@, maximum as nat),
{
    let words = text::words(&text::chars_of(source), Separator::WhiteSpace);
    let flat = text::join_words(&words, " ");
    proof {
        assert(text::word_views(words@) =~= text::word_runs(source@, Separator::WhiteSpace));
    }
    if text::bytes_in(flat.as_str()) <= maximum {
        return flat;
    }
    text::join2(text::cut_to_bytes(flat.as_str(), maximum), "…")
}

/// The first position of an `id` attribute with this value, in either kind of quotation marks.
pub open spec fn id_attribute(source: Seq<char>, id: Seq<char>) -> Option<int> {
    let double = text::position_of(source, "id=\""@ + id + "\""@, 0);
    let single = text::position_of(source, "id='"@ + id + "'"@, 0);
    match (double, single) {
        (Some(a), Some(b)) => Some(
            if a <= b {
                a
            } else {
                b
            },
        ),
        (Some(a), None) => Some(a),
        (None, Some(b)) => Some(b),
        (None, None) => None,
    }
}

/// The text without the angle brackets that lead it.
pub open spec fn without_brackets(s: Seq<char>) -> Seq<char>
    decreases s.len(),
{
    if s.len() > 0 && s[0] == '<' {
        without_brackets(s.skip(1))
    } else {
        s
    }
}

/// What ends a tag's name: ASCII white space or a closing bracket.
pub open spec fn ends_tag_name(c: char) -> bool {
    c == ' ' || c == '\t' || c == '\n' || c as u32 == 12 || c == '\r' || c == '>'
}

/// The text up to the first character that ends a tag's name.
pub open spec fn tag_prefix(s: Seq<char>) -> Seq<char>
    decreases s.len(),
{
    if s.len() == 0 || ends_tag_name(s[0]) {
        Seq::empty()
    } else {
        seq![s[0]] + tag_prefix(s.skip(1))
    }
}

/// The name of an opening tag.
pub open spec fn tag_name(opening: Seq<char>) -> Seq<char> {
    tag_prefix(without_brackets(opening))
}

/// The excerpt of the element whose opening tag is `source[start..end]`: the tag alone where
/// it closes itself, else the element with its content on a line of its own; content of
/// several lines or with elements in it is kept as it stands.
pub open spec fn element_from(source: Seq<char>, start: int, end: int) -> Option<Seq<char>> {
    let opening = text::trimmed(source.subrange(start, end));
    let tag = tag_name(opening);
    let closing = "</"@ + tag + ">"@;
    if opening.len() >= 2 && opening[opening.len() - 2] == '/' && opening.last() == '>' {
        Some(opening)
    } else if tag.len() == 0 || tag[0] == '!' || tag[0] == '?' || tag[0] == '/' {
        None
    } else {
        match text::position_of(source, closing, end) {
            None => None,
            Some(at) => {
                let inner = text::trimmed(source.subrange(end, at));
                if inner.len() == 0 {
                    Some(opening + "\n"@ + closing)
                } else if inner.contains('\n') || inner.contains('<') {
                    Some(text::trimmed(source.subrange(start, at + closing.len())))
                } else {
                    Some(opening + "\n  "@ + inner + "\n"@ + closing)
                }
            },
        }
    }
}

/// The excerpt of the element with this ID.
pub open spec fn element_excerpt_of(source: Seq<char>, id: Seq<char>) -> Option<Seq<char>> {
    match id_attribute(source, id) {
        None => None,
        Some(at) => match text::last_position(source, '<', at) {
            None => None,
            Some(start) => match text::position_of(source, seq!['>'], at) {
                None => None,
                Some(close) => element_from(source, start, close + 1),
            },
        },
    }
}

fn find_id_attribute(cs: &Vec<char>, id: &str) -> (out: Option<usize>)
    ensures
        match id_attribute(cs@, id@) {
            Some(at) => out == Some(at as usize) && 0 <= at <= cs.len(),
            None => out is None,
        },
{
    let double = text::chars_of(text::join3("id=\"", id, "\"").as_str());
    let single = text::chars_of(text::join3("id='", id, "'").as_str());
    match (text::find(cs, &double, 0), text::find(cs, &single, 0)) {
        (Some(a), Some(b)) => if a <= b {
            Some(a)
        } else {
            Some(b)
        },
        (Some(a), None) => Some(a),
        (None, Some(b)) => Some(b),
        (None, None) => None,
    }
}

fn name_of_tag(opening: &str) -> (out: String)
    ensures
        out@ == tag_name(opening@),
{
    let cs = text::chars_of(opening);
    let mut from: usize = 0;
    proof {
        assert(opening@.skip(0) =~= opening@);
    }
    while from < cs.len() && cs[from] == '<'
        invariant
            from <= cs.len(),
            cs@ == opening@,
            without_brackets(opening@) == without_brackets(opening@.skip(from as int)),
        decreases cs.len() - from,
    {
        proof {
            assert(opening@.skip(from as int).skip(1) =~= opening@.skip(from as int + 1));
        }
        from += 1;
    }
    let ghost rest = opening@.skip(from as int);
    let mut out = String::new();
    let mut i: usize = from;
    proof {
        assert(Seq::<char>::empty() + tag_prefix(rest) =~= tag_prefix(rest));
    }
    while i < cs.len()
        invariant
            from <= i <= cs.len(),
            cs@ == opening@,
            rest == opening@.skip(from as int),
            tag_prefix(rest) == out@ + tag_prefix(opening@.skip(i as int)),
            tag_name(opening@) == tag_prefix(rest),
        decreases cs.len() - i,
    {
        let c: char = cs[i];
        let ghost tail = opening@.skip(i as int);
        proof {
            assert(tail[0] == c);
            assert(tail.skip(1) =~= opening@.skip(i as int + 1));
        }
        if c == ' ' || c == '\t' || c == '\n' || c as u32 == 12 || c == '\r' || c == '>' {
            proof {
                assert(tag_prefix(tail) =~= Seq::<char>::empty());
                assert(out@ + tag_prefix(tail) =~= out@);
            }
            return out;
        }
        proof {
            assert(out@ + (seq![c] + tag_prefix(tail.skip(1))) =~= out@.push(c) + tag_prefix(
                tail.skip(1),
            ));
        }
        out.push(c);
        i += 1;
    }
    proof {
        assert(tag_prefix(opening@.skip(i as int)) =~= Seq::<char>::empty());
        assert(out@ + tag_prefix(opening@.skip(i as int)) =~= out@);
    }
    out
}

fn holds_char(s: &str, c: char) -> (result: bool)
    ensures
        result == s@.contains(c),
{
    let cs = text::chars_of(s);
    let mut i: usize = 0;
    while i < cs.len()
        invariant
            i <= cs.len(),
            cs@ == s@,
            forall|j: int| 0 <= j < i ==> s@[j] != c,
        decreases cs.len() - i,
    {
        if cs[i] == c {
            proof {
                assert(s@[i as int] == c);
            }
            return true;
        }
        i += 1;
    }
    false
}

fn element_at(cs: &Vec<char>, start: usize, end: usize) -> (out: Option<String>)
    requires
        start <= end <= cs.len(),
    ensures
        text::text_view(out) == element_from(cs@, start as int, end as int),
{
    let opening_text = text::text_of(cs, start, end);
    let opening = text::trim(opening_text.as_str());
    let opening_chars = text::chars_of(opening);
    let count: usize = opening_chars.len();
    if count >= 2 && opening_chars[count - 2] == '/' && opening_chars[count - 1] == '>' {
        return Some(opening.to_owned());
    }
    let tag = name_of_tag(opening);
    let tag_chars = text::chars_of(tag.as_str());
    if tag_chars.len() == 0 || tag_chars[0] == '!' || tag_chars[0] == '?' || tag_chars[0] == '/' {
        return None;
    }
    let closing = text::join3("</", tag.as_str(), ">");
    let closing_chars = text::chars_of(closing.as_str());
    match text::find(cs, &closing_chars, end) {
        None => None,
        Some(at) => {
            let inner_text = text::text_of(cs, end, at);
            let inner = text::trim(inner_text.as_str());
            if inner.unicode_len() == 0 {
                return Some(text::join3(opening, "\n", closing.as_str()));
            }
            if holds_char(inner, '\n') || holds_char(inner, '<') {
                let whole = text::text_of(cs, start, at + closing_chars.len());
                return Some(text::trim(whole.as_str()).to_owned());
            }
            Some(text::join5(opening, "\n  ", inner, "\n", closing.as_str()))
        },
    }
}

/// The excerpt of the element with this ID.
pub fn html_element_excerpt(source: &str, id: &str) -> (out: Option<String>)
    ensures
        text::text_view(out) == element_excerpt_of(source@, id@),
{
    let cs = text::chars_of(source);
    match find_id_attribute(&cs, id) {
        None => None,
        Some(at) => match text::find_last(&cs, '<', at) {
            None => None,
            Some(start) => {
                let mut bracket: Vec<char> = Vec::new();
                bracket.push('>');
                proof {
                    assert(bracket@ =~= seq!['>']);
                }
                match text::find(&cs, &bracket, at) {
                    None => None,
                    Some(close) => element_at(&cs, start, close + 1),
                }
            },
        },
    }
}

// ---------------------------------------------------------------------------
// What excerpts keep
// ---------------------------------------------------------------------------

/// The text without its white space.
pub open spec fn dense(s: Seq<char>) -> Seq<char> {
    s.filter(|c: char| !text::is_white_space(c))
}

proof fn lemma_dense_sum(a: Seq<char>, b: Seq<char>)
    ensures
        dense(a + b) == dense(a) + dense(b),
{
    Seq::filter_distributes_over_add(a, b, |c: char| !text::is_white_space(c));
}

proof fn lemma_dense_space(s: Seq<char>)
    requires
        forall|i: int| 0 <= i < s.len() ==> text::is_white_space(#[trigger] s[i]),
    ensures
        dense(s) == Seq::<char>::empty(),
    decreases s.len(),
{
    reveal(Seq::filter);
    if s.len() > 0 {
        lemma_dense_space(s.drop_last());
        assert(text::is_white_space(s[s.len() - 1]));
    }
}

proof fn lemma_dense_start(s: Seq<char>)
    ensures
        dense(text::trimmed_start(s)) == dense(s),
    decreases s.len(),
{
    if s.len() > 0 && text::is_white_space(s[0]) {
        lemma_dense_start(s.skip(1));
        assert(s =~= seq![s[0]] + s.skip(1));
        lemma_dense_sum(seq![s[0]], s.skip(1));
        lemma_dense_space(seq![s[0]]);
        assert(Seq::<char>::empty() + dense(s.skip(1)) =~= dense(s.skip(1)));
    }
}

proof fn lemma_dense_end(s: Seq<char>)
    ensures
        dense(text::trimmed_end(s)) == dense(s),
    decreases s.len(),
{
    if s.len() > 0 && text::is_white_space(s.last()) {
        lemma_dense_end(s.drop_last());
        assert(s =~= s.drop_last() + seq![s.last()]);
        lemma_dense_sum(s.drop_last(), seq![s.last()]);
        lemma_dense_space(seq![s.last()]);
        assert(dense(s.drop_last()) + Seq::<char>::empty() =~= dense(s.drop_last()));
    }
}

proof fn lemma_dense_trimmed(s: Seq<char>)
    ensures
        dense(text::trimmed(s)) == dense(s),
{
    lemma_dense_start(s);
    lemma_dense_end(text::trimmed_start(s));
}

/// The name of a tag stands behind its leading brackets and ends before the first white space
/// or closing bracket.
pub proof fn law_tag_name_is_the_first_word(brackets: nat, name: Seq<char>, rest: Seq<char>)
    requires
        forall|i: int| 0 <= i < name.len() ==> !ends_tag_name(#[trigger] name[i]),
        name.len() > 0 ==> name[0] != '<',
        rest.len() > 0 ==> rest[0] == ' ' || rest[0] == '\t' || rest[0] == '\n' || rest[0]
            == '\r' || rest[0] == '>',
    ensures
        tag_name(Seq::new(brackets, |i: int| '<') + name + rest) == name,
    decreases brackets,
{
    let all = Seq::new(brackets, |i: int| '<') + name + rest;
    if brackets > 0 {
        let fewer = (brackets - 1) as nat;
        law_tag_name_is_the_first_word(fewer, name, rest);
        assert(all.skip(1) =~= Seq::new(fewer, |i: int| '<') + name + rest);
        assert(all[0] == '<');
    } else {
        assert(all =~= name + rest);
        if name.len() > 0 {
            assert(all[0] == name[0]);
        } else if rest.len() > 0 {
            assert(all[0] == rest[0]);
        }
        assert(without_brackets(all) == all);
        lemma_tag_prefix(name, rest);
    }
}

proof fn lemma_tag_prefix(name: Seq<char>, rest: Seq<char>)
    requires
        forall|i: int| 0 <= i < name.len() ==> !ends_tag_name(#[trigger] name[i]),
        rest.len() > 0 ==> ends_tag_name(rest[0]),
    ensures
        tag_prefix(name + rest) == name,
    decreases name.len(),
{
    let all = name + rest;
    if name.len() == 0 {
        assert(all =~= rest);
        assert(tag_prefix(rest) =~= name);
    } else {
        assert(all[0] == name[0]);
        assert(all.skip(1) =~= name.skip(1) + rest);
        lemma_tag_prefix(name.skip(1), rest);
        assert(seq![name[0]] + name.skip(1) =~= name);
    }
}

/// An excerpt never loses content. `source[start..end]` is an opening tag that does not close
/// itself, and `at` is the first place behind it of the closing tag of its name: but for white
/// space the excerpt is the source from the opening tag through that closing tag. Content of
/// several lines, or with elements in it, stands in the excerpt as it stands in the source.
pub proof fn law_excerpt_keeps_the_element(source: Seq<char>, start: int, end: int, at: int)
    requires
        0 <= start <= end <= at,
        ({
            let opening = text::trimmed(source.subrange(start, end));
            let name = tag_name(opening);
            let closing = "</"@ + name + ">"@;
            &&& !(opening.len() >= 2 && opening.subrange(
                opening.len() - 2,
                opening.len() as int,
            ) == "/>"@)
            &&& name.len() > 0 && name[0] != '!' && name[0] != '?' && name[0] != '/'
            &&& at + closing.len() <= source.len()
            &&& source.subrange(at, at + closing.len()) == closing
            &&& forall|k: int| end <= k < at ==> !#[trigger] text::occurs_at(source, closing, k)
        }),
    ensures
        element_from(source, start, end) is Some,
        ({
            let name = tag_name(text::trimmed(source.subrange(start, end)));
            let through = at + name.len() + 3;
            let excerpt = element_from(source, start, end)->0;
            let content = text::trimmed(source.subrange(end, at));
            &&& dense(excerpt) == dense(source.subrange(start, through))
            &&& (exists|i: int| 0 <= i < content.len() && (content[i] == '\n' || content[i] == '<'))
                ==> excerpt == text::trimmed(source.subrange(start, through))
            &&& content.len() > 0 && (forall|i: int|
                0 <= i < content.len() ==> content[i] != '\n' && content[i] != '<') ==> excerpt
                == text::trimmed(source.subrange(start, end)) + "\n  "@ + content + "\n</"@ + name
                + ">"@
        }),
{
    reveal_strlit("/>");
    reveal_strlit("</");
    reveal_strlit(">");
    reveal_strlit("\n");
    reveal_strlit("\n  ");
    reveal_strlit("\n</");
    let raw = source.subrange(start, end);
    let opening = text::trimmed(raw);
    let name = tag_name(opening);
    let closing = "</"@ + name + ">"@;
    let through = at + closing.len();
    let between = source.subrange(end, at);
    let content = text::trimmed(between);
    if opening.len() >= 2 && opening[opening.len() - 2] == '/' && opening.last() == '>' {
        assert(opening.subrange(opening.len() - 2, opening.len() as int) =~= "/>"@);
    }
    text::law_first_place_is_found(source, closing, end, at);
    assert(source.subrange(start, through) =~= raw + between + closing);
    lemma_dense_sum(raw + between, closing);
    lemma_dense_sum(raw, between);
    lemma_dense_trimmed(raw);
    lemma_dense_trimmed(between);
    lemma_dense_trimmed(source.subrange(start, through));
    lemma_dense_sum(opening + "\n"@, closing);
    lemma_dense_sum(opening, "\n"@);
    lemma_dense_space("\n"@);
    lemma_dense_sum(opening + "\n  "@ + content + "\n"@, closing);
    lemma_dense_sum(opening + "\n  "@ + content, "\n"@);
    lemma_dense_sum(opening + "\n  "@, content);
    lemma_dense_sum(opening, "\n  "@);
    lemma_dense_space("\n  "@);
    let none = Seq::<char>::empty();
    assert(dense(opening) + none =~= dense(opening));
    assert(dense(opening) + dense(content) + none =~= dense(opening) + dense(content));
    if content.len() == 0 {
        lemma_dense_space(content);
        assert(dense(opening) + none + dense(closing) =~= dense(opening) + dense(closing));
    }
    assert(opening + "\n  "@ + content + "\n"@ + closing =~= opening + "\n  "@ + content
        + "\n</"@ + name + ">"@);
}

/// The excerpt of an element that closes itself is its tag, and an element whose closing tag
/// stands nowhere behind it has none.
pub proof fn law_excerpt_of_single_tags(source: Seq<char>, start: int, end: int)
    requires
        0 <= start <= end <= source.len(),
    ensures
        ({
            let opening = text::trimmed(source.subrange(start, end));
            let closing = "</"@ + tag_name(opening) + ">"@;
            if opening.len() >= 2 && opening.subrange(opening.len() - 2, opening.len() as int)
                == "/>"@ {
                element_from(source, start, end) == Some(opening)
            } else {
                (forall|k: int| end <= k ==> !#[trigger] text::occurs_at(source, closing, k))
                    ==> element_from(source, start, end) is None
            }
        }),
{
    reveal_strlit("/>");
    let opening = text::trimmed(source.subrange(start, end));
    let closing = "</"@ + tag_name(opening) + ">"@;
    if opening.len() >= 2 && opening[opening.len() - 2] == '/' && opening.last() == '>' {
        assert(opening.subrange(opening.len() - 2, opening.len() as int) =~= "/>"@);
    }
    if opening.len() >= 2 {
        let ending = opening.subrange(opening.len() - 2, opening.len() as int);
        assert(ending[0] == opening[opening.len() - 2] && ending[1] == opening.last());
    }
    text::law_found_texts_stand_there(source, closing, end);
}

/// The element with an ID is the one whose tag holds the first `id` attribute with that value:
/// its tag opens at the last bracket before the attribute and ends at the first one behind.
pub proof fn law_excerpt_is_of_the_element_with_the_id(
    source: Seq<char>,
    id: Seq<char>,
    at: int,
    start: int,
    close: int,
)
    requires
        0 <= start < at <= close < source.len(),
        text::occurs_at(source, "id=\""@ + id + "\""@, at) || text::occurs_at(
            source,
            "id='"@ + id + "'"@,
            at,
        ),
        forall|k: int|
            0 <= k < at ==> !#[trigger] text::occurs_at(source, "id=\""@ + id + "\""@, k),
        forall|k: int| 0 <= k < at ==> !#[trigger] text::occurs_at(source, "id='"@ + id + "'"@, k),
        source[start] == '<',
        forall|k: int| start < k < at ==> source[k] != '<',
        source[close] == '>',
        forall|k: int| at <= k < close ==> source[k] != '>',
    ensures
        element_excerpt_of(source, id) == element_from(source, start, close + 1),
{
    let double = "id=\""@ + id + "\""@;
    let single = "id='"@ + id + "'"@;
    text::law_found_texts_stand_there(source, double, 0);
    text::law_found_texts_stand_there(source, single, 0);
    if text::occurs_at(source, double, at) {
        text::law_first_place_is_found(source, double, 0, at);
    }
    if text::occurs_at(source, single, at) {
        text::law_first_place_is_found(source, single, 0, at);
    }
    text::law_last_place_is_found(source, '<', at);
    assert(source.subrange(close, close + 1) =~= seq!['>']);
    assert forall|k: int| at <= k < close implies !#[trigger] text::occurs_at(
        source,
        seq!['>'],
        k,
    ) by {
        assert(source.subrange(k, k + 1)[0] == source[k]);
    }
    text::law_first_place_is_found(source, seq!['>'], at, close);
}

/// Where no `id` attribute has the value there is no excerpt.
pub proof fn law_unknown_ids_have_no_excerpt(source: Seq<char>, id: Seq<char>)
    requires
        forall|k: int| !#[trigger] text::occurs_at(source, "id=\""@ + id + "\""@, k),
        forall|k: int| !#[trigger] text::occurs_at(source, "id='"@ + id + "'"@, k),
    ensures
        element_excerpt_of(source, id) is None,
{
    text::law_found_texts_stand_there(source, "id=\""@ + id + "\""@, 0);
    text::law_found_texts_stand_there(source, "id='"@ + id + "'"@, 0);
}

/// The lines of a builder projection of one node: its quoted ID, its size where it is known,
/// and its quoted text (or else its label) as a child.
pub open spec fn builder_lines(
    id: Seq<char>,
    size: Option<(Seq<char>, Seq<char>)>,
    child: Option<Seq<char>>,
) -> Seq<Seq<char>> {
    let head = seq!["div()"@, "    .id("@ + text::quoted_text(id) + ")"@];
    let sized = match size {
        Some((width, height)) => head.push("    .w(px("@ + width + ".))"@).push(
            "    .h(px("@ + height + ".))"@,
        ),
        None => head,
    };
    let filled = match child {
        Some(child) => sized.push("    .child("@ + text::quoted_text(child) + ")"@),
        None => sized,
    };
    filled.push("// Projection of the same selected component node"@)
}

/// The size of a node as whole numbers of pixels.
#[derive(Debug)]
pub struct SizeLabels {
    pub width: String,
    pub height: String,
}

/// The sizes that the labels write.
pub open spec fn size_view(size: Option<SizeLabels>) -> Option<(Seq<char>, Seq<char>)> {
    match size {
        Some(size) => Some((size.width@, size.height@)),
        None => None,
    }
}

/// The builder projection of one node: its text, or else its label, is its child.
pub open spec fn gpui_excerpt_of(
    id: Seq<char>,
    size: Option<SizeLabels>,
    text: Option<String>,
    label: Option<String>,
) -> Seq<char> {
    text::joined(
        builder_lines(
            id,
            size_view(size),
            if text is Some {
                text::text_view(text)
            } else {
                text::text_view(label)
            },
        ),
        "\n"@,
    )
}

/// A builder projection of one node.
pub fn gpui_element_excerpt(
    id: &str,
    size: Option<SizeLabels>,
    text: Option<String>,
    label: Option<String>,
) -> (out: String)
    ensures
        out@ == gpui_excerpt_of(id@, size, text, label),
{
    let mut lines: Vec<String> = Vec::new();
    lines.push("div()".to_owned());
    lines.push(text::join3("    .id(", text::quoted(id).as_str(), ")"));
    match size {
        Some(size) => {
            lines.push(text::join3("    .w(px(", size.width.as_str(), ".))"));
            lines.push(text::join3("    .h(px(", size.height.as_str(), ".))"));
        },
        None => {},
    }
    let child = match text {
        Some(text) => Some(text),
        None => label,
    };
    match &child {
        Some(child) => {
            lines.push(text::join3("    .child(", text::quoted(child.as_str()).as_str(), ")"));
        },
        None => {},
    }
    lines.push("// Projection of the same selected component node".to_owned());
    proof {
        assert(text::texts(lines@) =~= builder_lines(
            id@,
            size_view(size),
            text::text_view(child),
        ));
    }
    text::join_lines(&lines)
}

/// The first diagnostic message, or a word for none.
pub fn diagnostic_summary(messages: &Vec<String>) -> (out: String)
    ensures
        out@ == (if messages.len() > 0 {
            messages[0]@
        } else {
            "unknown validation failure"@
        }),
{
    if messages.len() > 0 {
        messages[0].clone()
    } else {
        "unknown validation failure".to_owned()
    }
}

/// A flattened text has one space between two words and none at its edges, whatever white space
/// stood there.
pub proof fn law_white_space_is_flattened(s: Seq<char>, c: char, word: Seq<char>)
    requires
        text::is_white_space(c),
        word.len() > 0,
        forall|i: int| 0 <= i < word.len() ==> !text::is_white_space(#[trigger] word[i]),
    ensures
        flattened(Seq::empty()).len() == 0,
        flattened(word) == word,
        flattened(s.push(c)) == flattened(s),
        text::word_runs(s, Separator::WhiteSpace).len() > 0 ==> flattened(s.push(c) + word)
            == flattened(s) + seq![' '] + word,
        text::word_runs(s, Separator::WhiteSpace).len() == 0 ==> flattened(s.push(c) + word) == word,
{
    let sep = Separator::WhiteSpace;
    text::law_words_stand_between_separators(s, c, word, sep);
    reveal_strlit(" ");
    assert(" "@ =~= seq![' ']);
    let words = text::word_runs(s, sep);
    text::law_joined_texts(words, word, " "@);
    if words.len() == 0 {
        assert(words.push(word) =~= seq![word]);
    }
}

/// A bounded excerpt is the flattened text where it fits, and else the start of it that fits,
/// with an ellipsis.
pub proof fn law_bounded_excerpts_fit(source: Seq<char>, maximum: nat)
    ensures
        ({
            let flat = flattened(source);
            let out = bounded_excerpt_of(source, maximum);
            &&& text::byte_len(flat) <= maximum ==> out == flat
            &&& text::byte_len(flat) > maximum ==> {
                let kept = out.drop_last();
                &&& out.len() > 0
                &&& out.last() == '…'
                &&& kept.len() <= flat.len()
                &&& kept == flat.take(kept.len() as int)
                &&& kept.len() > 0 ==> text::byte_len(kept) <= maximum
                &&& kept.len() < flat.len() ==> text::byte_len(flat.take(kept.len() as int + 1)) > maximum
            }
        }),
{
    let flat = flattened(source);
    text::law_cut_keeps_what_fits(flat, maximum);
    reveal_strlit("…");
    if text::byte_len(flat) > maximum {
        let out = bounded_excerpt_of(source, maximum);
        assert(out.drop_last() =~= text::prefix_within(flat, maximum));
        assert(out.last() == "…"@[0]);
    }
}

/// A builder names its node, gives its size where it is painted and shows its text or else its
/// label; each on a line of its own, before the closing remark.
pub proof fn law_builders_have_one_line_each(
    id: Seq<char>,
    size: Option<SizeLabels>,
    shown: Option<String>,
    label: Option<String>,
)
    ensures
        ({
            let out = gpui_excerpt_of(id, size, shown, label);
            let head = "div()"@ + "\n"@ + ("    .id("@ + text::quoted_text(id) + ")"@);
            let tail = "\n"@ + "// Projection of the same selected component node"@;
            let sized = if size is Some {
                head + "\n"@ + ("    .w(px("@ + size->0.width@ + ".))"@) + "\n"@ + ("    .h(px("@
                    + size->0.height@ + ".))"@)
            } else {
                head
            };
            &&& shown is None && label is None ==> out == sized + tail
            &&& shown is Some ==> out == sized + "\n"@ + ("    .child("@ + text::quoted_text(
                shown->0@,
            ) + ")"@) + tail
            &&& shown is None && label is Some ==> out == sized + "\n"@ + ("    .child("@
                + text::quoted_text(label->0@) + ")"@) + tail
        }),
{
    let gap = "\n"@;
    let first = "div()"@;
    let second = "    .id("@ + text::quoted_text(id) + ")"@;
    let remark = "// Projection of the same selected component node"@;
    text::law_joined_texts(seq![first], second, gap);
    text::law_joined_texts(seq![first], first, gap);
    let head = seq![first, second];
    assert(seq![first].push(second) =~= head);
    let sized = if size is Some {
        let wide = "    .w(px("@ + size->0.width@ + ".))"@;
        let high = "    .h(px("@ + size->0.height@ + ".))"@;
        text::law_joined_texts(head, wide, gap);
        text::law_joined_texts(head.push(wide), high, gap);
        head.push(wide).push(high)
    } else {
        head
    };
    let child = if shown is Some {
        text::text_view(shown)
    } else {
        text::text_view(label)
    };
    let filled = if child is Some {
        let line = "    .child("@ + text::quoted_text(child->0) + ")"@;
        text::law_joined_texts(sized, line, gap);
        sized.push(line)
    } else {
        sized
    };
    text::law_joined_texts(filled, remark, gap);
    assert(builder_lines(id, size_view(size), child) == filled.push(remark));
    let out = gpui_excerpt_of(id, size, shown, label);
    assert(out == text::joined(filled, gap) + gap + remark);
    assert(out =~= text::joined(filled, gap) + (gap + remark));
}

} // verus!
