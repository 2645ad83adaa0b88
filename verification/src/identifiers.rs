//! Names and identifiers: portable names, component IDs, comment numbers and properties.
use vstd::prelude::*;

use crate::annotations;
use crate::text;
use crate::text::Separator;

verus! {

// ---------------------------------------------------------------------------
// Portable names
// ---------------------------------------------------------------------------

/// A letter or an underscore.
pub open spec fn starts_identifier(c: char) -> bool {
    text::is_ascii_letter(c) || c == '_'
}

/// At most 128 bytes: a letter or underscore, then letters, digits, underscores, dashes and dots.
pub open spec fn portable_identifier(value: Seq<char>) -> bool {
    &&& text::byte_len(value) <= 128
    &&& value.len() > 0
    &&& starts_identifier(value[0])
    &&& forall|i: int|
        1 <= i < value.len() ==> text::is_ascii_alphanumeric(#[trigger] value[i]) || value[i] == '_'
            || value[i] == '-' || value[i] == '.'
}

/// Whether `value` may name an authored item.
pub fn is_portable_identifier(value: &str) -> (result: bool)
    ensures
        result == portable_identifier(value@),
{
    let cs = text::chars_of(value);
    if text::bytes_in(value) > 128 || cs.len() == 0 || !(text::ascii_letter(cs[0]) || cs[0]
        == '_') {
        return false;
    }
    let mut i: usize = 1;
    while i < cs.len()
        invariant
            1 <= i <= cs.len(),
            cs@ == value@,
            forall|j: int|
                1 <= j < i ==> text::is_ascii_alphanumeric(#[trigger] value@[j]) || value@[j] == '_'
                    || value@[j] == '-' || value@[j] == '.',
        decreases cs.len() - i,
    {
        let c: char = cs[i];
        if !(text::ascii_alphanumeric(c) || c == '_' || c == '-' || c == '.') {
            proof {
                assert(value@[i as int] == c);
            }
            return false;
        }
        i += 1;
    }
    true
}

/// The value types that every backend understands.
pub open spec fn portable_types() -> Seq<Seq<char>> {
    seq![
        "String"@,
        "bool"@,
        "u8"@,
        "u16"@,
        "u32"@,
        "u64"@,
        "i8"@,
        "i16"@,
        "i32"@,
        "i64"@,
        "f32"@,
        "f64"@,
    ]
}

/// Whether `value`, trimmed, is one of the portable value types.
pub fn is_portable_type(value: &str) -> (result: bool)
    ensures
        result == portable_types().contains(text::trimmed(value@)),
{
    let t = text::trim(value);
    let ghost all = portable_types();
    proof {
        assert(all[0] == "String"@ && all[1] == "bool"@ && all[2] == "u8"@ && all[3] == "u16"@
            && all[4] == "u32"@ && all[5] == "u64"@ && all[6] == "i8"@ && all[7] == "i16"@ && all[8]
            == "i32"@ && all[9] == "i64"@ && all[10] == "f32"@ && all[11] == "f64"@);
    }
    text::same_text(t, "String") || text::same_text(t, "bool") || text::same_text(t, "u8")
        || text::same_text(t, "u16") || text::same_text(t, "u32") || text::same_text(t, "u64")
        || text::same_text(t, "i8") || text::same_text(t, "i16") || text::same_text(t, "i32")
        || text::same_text(t, "i64") || text::same_text(t, "f32") || text::same_text(t, "f64")
}

// ---------------------------------------------------------------------------
// Component IDs
// ---------------------------------------------------------------------------

/// A text with its ASCII capitals made small.
pub open spec fn lower(s: Seq<char>) -> Seq<char> {
    Seq::new(s.len(), |i: int| text::ascii_lower(s[i]))
}

/// The words of letters and digits in a name, in lower case.
pub open spec fn name_words(name: Seq<char>) -> Seq<Seq<char>> {
    Seq::new(
        text::word_runs(name, Separator::NotAlphanumeric).len(),
        |i: int| lower(text::word_runs(name, Separator::NotAlphanumeric)[i]),
    )
}

/// The ID of a component with this name: the words of letters and digits in lower case,
/// joined by dashes; a name without any is called "component".
pub open spec fn component_id_of(name: Seq<char>) -> Seq<char> {
    if name_words(name).len() == 0 {
        "component"@
    } else {
        text::joined(name_words(name), "-"@)
    }
}

fn lower_word(word: &Vec<char>) -> (out: Vec<char>)
    ensures
        out@ == lower(word@),
{
    let mut out: Vec<char> = Vec::new();
    let mut i: usize = 0;
    while i < word.len()
        invariant
            i <= word.len(),
            out.len() == i,
            forall|j: int| 0 <= j < i ==> #[trigger] out[j] == text::ascii_lower(word[j]),
        decreases word.len() - i,
    {
        out.push(text::to_ascii_lower(word[i]));
        i += 1;
    }
    out
}

/// The ID of a component with this name.
pub fn component_id(name: &str) -> (id: String)
    ensures
        id@ == component_id_of(name@),
{
    let cs = text::chars_of(name);
    let runs = text::words(&cs, Separator::NotAlphanumeric);
    if runs.len() == 0 {
        return "component".to_owned();
    }
    let mut lowered: Vec<Vec<char>> = Vec::new();
    let mut i: usize = 0;
    while i < runs.len()
        invariant
            i <= runs.len(),
            lowered.len() == i,
            forall|j: int| 0 <= j < i ==> (#[trigger] lowered[j])@ == lower(runs[j]@),
        decreases runs.len() - i,
    {
        lowered.push(lower_word(&runs[i]));
        i += 1;
    }
    proof {
        assert(text::word_views(lowered@) =~= name_words(name@));
    }
    text::join_words(&lowered, "-")
}

/// A small letter or a digit.
pub open spec fn is_id_char(c: char) -> bool {
    97 <= c as u32 <= 122 || text::is_digit(c)
}

/// Only small letters, digits and dashes, the first and the last no dash, no two dashes in a row.
pub open spec fn is_component_id(s: Seq<char>) -> bool {
    &&& s.len() > 0
    &&& is_id_char(s[0])
    &&& is_id_char(s.last())
    &&& forall|i: int| 0 <= i < s.len() ==> is_id_char(#[trigger] s[i]) || s[i] == '-'
    &&& forall|i: int|
        0 < i < s.len() && #[trigger] s[i] == '-' ==> is_id_char(s[i - 1])
}

proof fn lemma_runs_shape(s: Seq<char>, i: int)
    requires
        0 <= i < text::word_runs(s, Separator::NotAlphanumeric).len(),
    ensures
        text::word_runs(s, Separator::NotAlphanumeric)[i].len() > 0,
        forall|j: int|
            0 <= j < text::word_runs(s, Separator::NotAlphanumeric)[i].len()
                ==> text::is_ascii_alphanumeric(
                #[trigger] text::word_runs(s, Separator::NotAlphanumeric)[i][j],
            ),
        s.len() > 0 && !Separator::NotAlphanumeric.separates(s.last()) ==> text::word_runs(
            s,
            Separator::NotAlphanumeric,
        ).len() > 0,
    decreases s.len(),
{
    let sep = Separator::NotAlphanumeric;
    let before = s.drop_last();
    let words = text::word_runs(before, sep);
    lemma_runs_nonempty(before);
    if sep.separates(s.last()) {
        lemma_runs_shape(before, i);
    } else if before.len() > 0 && !sep.separates(before.last()) {
        if i < words.len() - 1 {
            lemma_runs_shape(before, i);
        } else {
            lemma_runs_shape(before, words.len() - 1);
        }
    } else {
        if i < words.len() {
            lemma_runs_shape(before, i);
        }
    }
}

proof fn lemma_runs_nonempty(s: Seq<char>)
    ensures
        s.len() > 0 && !Separator::NotAlphanumeric.separates(s.last()) ==> text::word_runs(
            s,
            Separator::NotAlphanumeric,
        ).len() > 0,
    decreases s.len(),
{
    if s.len() > 0 {
        lemma_runs_nonempty(s.drop_last());
    }
}

proof fn lemma_joined_shape(words: Seq<Seq<char>>)
    requires
        words.len() > 0,
        forall|i: int|
            0 <= i < words.len() ==> (#[trigger] words[i]).len() > 0 && forall|j: int|
                0 <= j < words[i].len() ==> is_id_char(#[trigger] words[i][j]),
    ensures
        is_component_id(text::joined(words, "-"@)),
    decreases words.len(),
{
    reveal_strlit("-");
    let s = text::joined(words, "-"@);
    let last = words.last();
    assert(words[words.len() - 1] == last);
    assert(is_id_char(last[last.len() - 1]));
    assert(is_id_char(last[0]));
    if words.len() == 1 {
        assert(s == words[0]);
    } else {
        let head = words.drop_last();
        assert forall|i: int| 0 <= i < head.len() implies (#[trigger] head[i]).len() > 0
            && forall|j: int| 0 <= j < head[i].len() ==> is_id_char(#[trigger] head[i][j]) by {
            assert(words[i] == head[i]);
        }
        lemma_joined_shape(head);
        let h = text::joined(head, "-"@);
        assert(s.last() == last[last.len() - 1]);
        assert forall|i: int| 0 <= i < s.len() implies is_id_char(#[trigger] s[i]) || s[i]
            == '-' by {
            if i < h.len() {
                assert(s[i] == h[i]);
            } else if i > h.len() {
                assert(s[i] == last[i - h.len() - 1]);
            }
        }
        assert forall|i: int| 0 < i < s.len() && #[trigger] s[i] == '-' implies is_id_char(
            s[i - 1],
        ) by {
            if i < h.len() {
                assert(h[i] == s[i]);
                assert(h[i - 1] == s[i - 1]);
            } else if i == h.len() {
                assert(s[i - 1] == h.last());
            } else {
                assert(s[i] == last[i - h.len() - 1]);
            }
        }
    }
}

/// Every component ID is made of small letters and digits with single dashes between them.
pub proof fn law_component_id_shape(name: Seq<char>)
    ensures
        is_component_id(component_id_of(name)),
{
    let runs = text::word_runs(name, Separator::NotAlphanumeric);
    let words = name_words(name);
    if words.len() == 0 {
        reveal_strlit("component");
    } else {
        assert forall|i: int| 0 <= i < words.len() implies (#[trigger] words[i]).len() > 0
            && forall|j: int| 0 <= j < words[i].len() ==> is_id_char(#[trigger] words[i][j]) by {
            lemma_runs_shape(name, i);
            assert(words[i] == lower(runs[i]));
            assert forall|j: int| 0 <= j < words[i].len() implies is_id_char(
                #[trigger] words[i][j],
            ) by {
                assert(text::is_ascii_alphanumeric(runs[i][j]));
            }
        }
        lemma_joined_shape(words);
    }
}

// ---------------------------------------------------------------------------
// Comment numbers and authored names
// ---------------------------------------------------------------------------

/// The text without its leading zeros.
pub open spec fn without_leading_zeros(s: Seq<char>) -> Seq<char>
    decreases s.len(),
{
    if s.len() > 0 && s[0] == '0' {
        without_leading_zeros(s.skip(1))
    } else {
        s
    }
}

/// The number that people see for a comment ID: what follows "comment-" (or the whole ID)
/// without leading zeros, and "0" where nothing is left.
pub open spec fn annotation_number_of(id: Seq<char>) -> Seq<char> {
    let prefix = "comment-"@;
    let number = without_leading_zeros(
        if text::occurs_at(id, prefix, 0) {
            id.skip(prefix.len() as int)
        } else {
            id
        },
    );
    if number.len() == 0 {
        "0"@
    } else {
        number
    }
}

/// The number that people see for a comment ID.
pub fn annotation_number(id: &str) -> (out: String)
    ensures
        out@ == annotation_number_of(id@),
{
    let rest = match text::strip_prefix(id, "comment-") {
        Some(rest) => rest,
        None => id.to_owned(),
    };
    let cs = text::chars_of(rest.as_str());
    let mut i: usize = 0;
    proof {
        assert(rest@.skip(0) =~= rest@);
    }
    while i < cs.len() && cs[i] == '0'
        invariant
            i <= cs.len(),
            cs@ == rest@,
            without_leading_zeros(rest@) == without_leading_zeros(rest@.skip(i as int)),
        decreases cs.len() - i,
    {
        proof {
            assert(rest@.skip(i as int).skip(1) =~= rest@.skip(i as int + 1));
        }
        i += 1;
    }
    if i == cs.len() {
        return "0".to_owned();
    }
    let number = text::text_of(&cs, i, cs.len());
    proof {
        assert(number@ =~= rest@.skip(i as int));
    }
    number
}

proof fn lemma_zeros_dropped(k: nat, s: Seq<char>)
    ensures
        without_leading_zeros(Seq::new(k, |i: int| '0') + s) == without_leading_zeros(s),
    decreases k,
{
    let zeros = Seq::new(k, |i: int| '0');
    if k > 0 {
        lemma_zeros_dropped((k - 1) as nat, s);
        assert((zeros + s).skip(1) =~= Seq::new((k - 1) as nat, |i: int| '0') + s);
    } else {
        assert(zeros + s =~= s);
    }
}

proof fn lemma_no_leading_zero(n: nat)
    requires
        n > 0,
    ensures
        text::decimal_text(n)[0] != '0',
    decreases n,
{
    text::lemma_decimal_digits(n / 10);
    if n >= 10 {
        lemma_no_leading_zero(n / 10);
    }
}

/// The number shown for the `n`th comment is `n`.
pub proof fn law_comment_number(n: nat)
    ensures
        annotation_number_of(annotations::comment_id(n)) == text::decimal_text(n),
{
    let prefix = "comment-"@;
    let id = annotations::comment_id(n);
    let digits = text::decimal_text(n);
    let padded = text::zero_padded(digits, 6);
    assert(id.subrange(0, prefix.len() as int) =~= prefix);
    assert(id.skip(prefix.len() as int) =~= padded);
    text::lemma_decimal_digits(n);
    if digits.len() < 6 {
        lemma_zeros_dropped((6 - digits.len()) as nat, digits);
    }
    if n > 0 {
        lemma_no_leading_zero(n);
    } else {
        reveal_strlit("0");
        assert(digits.skip(1) =~= Seq::<char>::empty());
        assert(without_leading_zeros(Seq::<char>::empty()).len() == 0);
        assert("0"@ =~= digits);
    }
}

/// A word with its first character in upper case.
pub open spec fn capitalized(word: Seq<char>) -> Seq<char> {
    if word.len() == 0 {
        word
    } else {
        text::uppercase_of(word[0]) + word.skip(1)
    }
}

/// The first `count` words, capitalized, one directly after another.
pub open spec fn capitalized_words(words: Seq<Seq<char>>) -> Seq<char>
    decreases words.len(),
{
    if words.len() == 0 {
        Seq::empty()
    } else {
        capitalized_words(words.drop_last()) + capitalized(words.last())
    }
}

/// The type-like name of an authored ID: its words between dashes and underscores,
/// capitalized and run together.
pub open spec fn authored_name_of(id: Seq<char>) -> Seq<char> {
    capitalized_words(text::word_runs(id, Separator::DashOrUnderscore))
}

/// The type-like name of an authored ID.
pub fn authored_name(id: &str) -> (out: String)
    ensures
        out@ == authored_name_of(id@),
{
    let cs = text::chars_of(id);
    let words = text::words(&cs, Separator::DashOrUnderscore);
    let ghost all = text::word_runs(id@, Separator::DashOrUnderscore);
    let mut out = String::new();
    let mut i: usize = 0;
    while i < words.len()
        invariant
            i <= words.len(),
            words.len() == all.len(),
            forall|j: int| 0 <= j < words.len() ==> (#[trigger] words[j])@ == all[j],
            forall|j: int| 0 <= j < words.len() ==> (#[trigger] words[j]).len() > 0,
            out@ == capitalized_words(all.take(i as int)),
        decreases words.len() - i,
    {
        proof {
            assert(all.take(i as int + 1).drop_last() =~= all.take(i as int));
            assert(all.take(i as int + 1).last() == words[i as int]@);
        }
        let first = text::uppercase(words[i][0]);
        let rest = text::text_of(&words[i], 1, words[i].len());
        proof {
            assert(rest@ =~= words[i as int]@.skip(1));
            assert(out@ + first@ + rest@ =~= out@ + (first@ + rest@));
        }
        out.append(first.as_str());
        out.append(rest.as_str());
        i += 1;
    }
    proof {
        assert(all.take(i as int) =~= all);
    }
    out
}

// ---------------------------------------------------------------------------
// Component properties
// ---------------------------------------------------------------------------

/// One typed property of a component.
#[derive(Debug)]
pub struct ComponentProp {
    pub name: String,
    pub value_type: String,
    pub default: Option<String>,
}

/// What a property holds.
#[verifier::ext_equal]
pub struct PropView {
    pub name: Seq<char>,
    pub value_type: Seq<char>,
    pub default: Option<Seq<char>>,
}

impl View for ComponentProp {
    type V = PropView;

    open spec fn view(&self) -> PropView {
        PropView {
            name: self.name@,
            value_type: self.value_type@,
            default: text::text_view(self.default),
        }
    }
}

impl Clone for ComponentProp {
    fn clone(&self) -> (copy: Self)
        ensures
            copy == *self,
    {
        ComponentProp {
            name: self.name.clone(),
            value_type: self.value_type.clone(),
            default: self.default.clone(),
        }
    }
}

/// The views of a row of properties.
pub open spec fn prop_views(s: Seq<ComponentProp>) -> Seq<PropView> {
    Seq::new(s.len(), |i: int| s[i]@)
}

/// A letter or underscore, then letters, digits and underscores.
pub open spec fn is_prop_name(name: Seq<char>) -> bool {
    &&& name.len() > 0
    &&& starts_identifier(name[0])
    &&& forall|i: int|
        1 <= i < name.len() ==> text::is_ascii_alphanumeric(#[trigger] name[i]) || name[i] == '_'
}

/// The property that one piece of a property list declares: a portable name and a type,
/// with a colon between them.
pub open spec fn declared_prop(piece: Seq<char>) -> Option<PropView> {
    match text::position_of(piece, seq![':'], 0) {
        None => None,
        Some(at) => {
            let name = text::trimmed(piece.take(at));
            let value_type = text::trimmed(piece.skip(at + 1));
            if is_prop_name(name) && value_type.len() > 0 {
                Some(PropView { name, value_type, default: None })
            } else {
                None
            }
        },
    }
}

/// The properties that the pieces declare, in order.
pub open spec fn declared_props(pieces: Seq<Seq<char>>) -> Seq<PropView>
    decreases pieces.len(),
{
    if pieces.len() == 0 {
        Seq::empty()
    } else {
        match declared_prop(pieces.last()) {
            Some(prop) => declared_props(pieces.drop_last()).push(prop),
            None => declared_props(pieces.drop_last()),
        }
    }
}

fn prop_name_is_portable(name: &str) -> (result: bool)
    ensures
        result == is_prop_name(name@),
{
    let cs = text::chars_of(name);
    if cs.len() == 0 || !(text::ascii_letter(cs[0]) || cs[0] == '_') {
        return false;
    }
    let mut i: usize = 1;
    while i < cs.len()
        invariant
            1 <= i <= cs.len(),
            cs@ == name@,
            forall|j: int|
                1 <= j < i ==> text::is_ascii_alphanumeric(#[trigger] name@[j]) || name@[j] == '_',
        decreases cs.len() - i,
    {
        if !(text::ascii_alphanumeric(cs[i]) || cs[i] == '_') {
            proof {
                assert(name@[i as int] == cs[i as int]);
            }
            return false;
        }
        i += 1;
    }
    true
}

fn parse_prop(piece: &Vec<char>) -> (out: Option<ComponentProp>)
    ensures
        match declared_prop(piece@) {
            Some(prop) => out is Some && out->0@ == prop,
            None => out is None,
        },
{
    let mut colon: Vec<char> = Vec::new();
    colon.push(':');
    proof {
        assert(colon@ =~= seq![':']);
    }
    match text::find(piece, &colon, 0) {
        None => None,
        Some(at) => {
            let name_text = text::text_of(piece, 0, at);
            let type_text = text::text_of(piece, at + 1, piece.len());
            proof {
                assert(name_text@ =~= piece@.take(at as int));
                assert(type_text@ =~= piece@.skip(at as int + 1));
            }
            let name = text::trim(name_text.as_str());
            let value_type = text::trim(type_text.as_str());
            if prop_name_is_portable(name) && value_type.unicode_len() > 0 {
                Some(
                    ComponentProp {
                        name: name.to_owned(),
                        value_type: value_type.to_owned(),
                        default: None,
                    },
                )
            } else {
                None
            }
        },
    }
}

/// The properties of a comma-separated list of `name: type` declarations; what declares
/// nothing is left out.
pub fn parse_component_props(source: &str) -> (out: Vec<ComponentProp>)
    ensures
        prop_views(out@) == declared_props(text::split_at_char(source@, ',')),
{
    let cs = text::chars_of(source);
    let pieces = text::split(&cs, ',');
    let ghost all = text::split_at_char(source@, ',');
    let mut out: Vec<ComponentProp> = Vec::new();
    let mut i: usize = 0;
    while i < pieces.len()
        invariant
            i <= pieces.len(),
            pieces.len() == all.len(),
            forall|j: int| 0 <= j < pieces.len() ==> (#[trigger] pieces[j])@ == all[j],
            prop_views(out@) == declared_props(all.take(i as int)),
        decreases pieces.len() - i,
    {
        let ghost was = out@;
        proof {
            assert(all.take(i as int + 1).drop_last() =~= all.take(i as int));
            assert(all.take(i as int + 1).last() == pieces[i as int]@);
        }
        match parse_prop(&pieces[i]) {
            Some(prop) => {
                out.push(prop);
                proof {
                    assert(prop_views(out@) =~= prop_views(was).push(prop@));
                }
            },
            None => {},
        }
        i += 1;
    }
    proof {
        assert(all.take(i as int) =~= all);
    }
    out
}

/// The ID of a component has one lower-case word for each word of letters and digits in the name,
/// with a dash between two: another character ends a word and adds none, and a name without words
/// gives "component".
pub proof fn law_component_id_follows_the_words(name: Seq<char>, c: char, word: Seq<char>)
    requires
        !text::is_ascii_alphanumeric(c),
        word.len() > 0,
        forall|i: int| 0 <= i < word.len() ==> text::is_ascii_alphanumeric(#[trigger] word[i]),
    ensures
        component_id_of(Seq::empty()) == "component"@,
        component_id_of(word).len() == word.len(),
        forall|i: int|
            0 <= i < word.len() ==> #[trigger] component_id_of(word)[i] == text::ascii_lower(
                word[i],
            ),
        component_id_of(name.push(c)) == component_id_of(name),
        (exists|i: int| 0 <= i < name.len() && text::is_ascii_alphanumeric(#[trigger] name[i]))
            ==> component_id_of(name.push(c) + word) == component_id_of(name) + seq!['-']
            + component_id_of(word),
        component_id_of(seq![c] + word) == component_id_of(word),
{
    let sep = Separator::NotAlphanumeric;
    let none = Seq::<char>::empty();
    text::law_words_stand_between_separators(name, c, word, sep);
    text::law_words_stand_between_separators(none, c, word, sep);
    assert(none.push(c) =~= seq![c]);
    let dash = "-"@;
    reveal_strlit("-");
    assert(dash =~= seq!['-']);
    assert(name_words(word) =~= seq![lower(word)]);
    text::law_joined_texts(name_words(name), lower(word), dash);
    assert(name_words(name.push(c)) =~= name_words(name));
    assert(name_words(name.push(c) + word) =~= name_words(name).push(lower(word)));
    assert(name_words(seq![c] + word) =~= seq![lower(word)]) by {
        assert(text::word_runs(none, sep).push(word) =~= seq![word]);
    }
    if exists|i: int| 0 <= i < name.len() && text::is_ascii_alphanumeric(#[trigger] name[i]) {
        lemma_some_word(name);
    }
}

proof fn lemma_some_word(name: Seq<char>)
    requires
        exists|i: int| 0 <= i < name.len() && text::is_ascii_alphanumeric(#[trigger] name[i]),
    ensures
        text::word_runs(name, Separator::NotAlphanumeric).len() > 0,
    decreases name.len(),
{
    let i = choose|i: int| 0 <= i < name.len() && text::is_ascii_alphanumeric(#[trigger] name[i]);
    if Separator::NotAlphanumeric.separates(name.last()) {
        assert(i < name.len() - 1);
        assert(name.drop_last()[i] == name[i]);
        lemma_some_word(name.drop_last());
    } else if name.len() > 1 && !Separator::NotAlphanumeric.separates(name[name.len() - 2]) {
        assert(name.drop_last()[name.len() - 2] == name[name.len() - 2]);
        lemma_some_word(name.drop_last());
    }
}

/// The type-like name of an ID has its words one directly after another, each with its first
/// character in upper case: a dash or an underscore ends a word and leaves nothing behind.
pub proof fn law_authored_name_follows_the_words(id: Seq<char>, c: char, word: Seq<char>)
    requires
        c == '-' || c == '_',
        word.len() > 0,
        forall|i: int| 0 <= i < word.len() ==> #[trigger] word[i] != '-' && word[i] != '_',
    ensures
        authored_name_of(Seq::empty()).len() == 0,
        authored_name_of(word) == text::uppercase_of(word[0]) + word.skip(1),
        authored_name_of(id.push(c)) == authored_name_of(id),
        authored_name_of(id.push(c) + word) == authored_name_of(id) + authored_name_of(word),
{
    let sep = Separator::DashOrUnderscore;
    text::law_words_stand_between_separators(id, c, word, sep);
    let words = text::word_runs(id, sep);
    assert(words.push(word).drop_last() =~= words);
    assert(seq![word].drop_last() =~= Seq::<Seq<char>>::empty());
    assert(capitalized_words(Seq::<Seq<char>>::empty()) =~= Seq::<char>::empty());
    assert(capitalized_words(seq![word]) =~= capitalized(word));
}

/// A portable identifier has at most 128 bytes and starts with a letter or an underscore, and
/// every other character is a letter, a digit, an underscore, a dash or a dot. The name of a
/// property is one without dashes and dots, of any length.
pub proof fn law_identifier_characters(value: Seq<char>, c: char)
    requires
        value.len() > 0,
    ensures
        portable_identifier(seq![c]) ==> 'a' <= c <= 'z' || 'A' <= c <= 'Z' || c == '_',
        is_prop_name(seq![c]) <==> 'a' <= c <= 'z' || 'A' <= c <= 'Z' || c == '_',
        is_prop_name(value.push(c)) <==> is_prop_name(value) && ('a' <= c <= 'z' || 'A' <= c <= 'Z'
            || '0' <= c <= '9' || c == '_'),
        portable_identifier(value.push(c)) ==> text::byte_len(value.push(c)) <= 128,
        portable_identifier(value) && text::byte_len(value.push(c)) <= 128 ==> (portable_identifier(
            value.push(c),
        ) <==> 'a' <= c <= 'z' || 'A' <= c <= 'Z' || '0' <= c <= '9' || c == '_' || c == '-' || c
            == '.'),
        is_prop_name(value) && text::byte_len(value) <= 128 ==> portable_identifier(value),
        portable_identifier(value.push(c)) && text::byte_len(value) <= 128 ==> portable_identifier(
            value,
        ),
{
    let longer = value.push(c);
    assert(longer[0] == value[0]);
    assert(longer[longer.len() - 1] == c);
    assert(forall|i: int| 0 <= i < value.len() ==> #[trigger] value[i] == longer[i]);
    assert(seq![c][0] == c);
}

/// A portable identifier keeps its first character, and a character outside ASCII never is in it.
pub proof fn law_identifiers_start_with_a_letter(value: Seq<char>)
    requires
        portable_identifier(value) || is_prop_name(value),
    ensures
        value.len() > 0,
        !('0' <= value[0] <= '9'),
        value[0] != '-',
        value[0] != '.',
        value[0] != ' ',
{
}

/// A piece of a property list declares a property where it has a colon, a portable name before
/// the first colon and a type behind it, each trimmed; and the properties of a list are those of
/// its pieces, in order.
pub proof fn law_properties_are_declared_with_a_colon(
    name: Seq<char>,
    value_type: Seq<char>,
    pieces: Seq<Seq<char>>,
)
    requires
        forall|i: int| 0 <= i < name.len() ==> #[trigger] name[i] != ':',
    ensures
        declared_prop(name) is None,
        ({
            let piece = name + seq![':'] + value_type;
            let inner = text::trimmed(name);
            let outer = text::trimmed(value_type);
            &&& declared_prop(piece) is Some <==> is_prop_name(inner) && outer.len() > 0
            &&& declared_prop(piece) is Some ==> declared_prop(piece)->0.name == inner
                && declared_prop(piece)->0.value_type == outer && declared_prop(piece)->0.default
                is None
            &&& declared_props(pieces.push(piece)) == (if is_prop_name(inner) && outer.len() > 0 {
                declared_props(pieces).push(declared_prop(piece)->0)
            } else {
                declared_props(pieces)
            })
        }),
        declared_props(Seq::empty()).len() == 0,
        declared_props(pieces.push(name)) == declared_props(pieces),
{
    let colon = seq![':'];
    let piece = name + colon + value_type;
    if text::position_of(name, colon, 0) is Some {
        let at = text::position_of(name, colon, 0)->0;
        text::law_found_texts_stand_there(name, colon, 0);
        assert(text::occurs_at(name, colon, at));
        assert(name.subrange(at, at + 1)[0] == ':');
        assert(name[at] == ':');
    }
    let at = name.len() as int;
    assert(piece.subrange(at, at + 1) =~= colon);
    assert forall|j: int| 0 <= j < at implies !#[trigger] text::occurs_at(piece, colon, j) by {
        if text::occurs_at(piece, colon, j) {
            assert(piece.subrange(j, j + 1)[0] == ':');
            assert(piece[j] == name[j]);
        }
    }
    text::law_first_place_is_found(piece, colon, 0, at);
    assert(piece.take(at) =~= name);
    assert(piece.skip(at + 1) =~= value_type);
    assert(pieces.push(piece).drop_last() =~= pieces);
    assert(pieces.push(name).drop_last() =~= pieces);
}

/// The portable types are the texts, the truth values and the fixed-width numbers.
pub proof fn law_portable_types(t: Seq<char>)
    ensures
        portable_types().contains(t) <==> t == "String"@ || t == "bool"@ || t == "u8"@ || t
            == "u16"@ || t == "u32"@ || t == "u64"@ || t == "i8"@ || t == "i16"@ || t == "i32"@ || t
            == "i64"@ || t == "f32"@ || t == "f64"@,
{
    let all = portable_types();
    assert(all[0] == "String"@ && all[1] == "bool"@ && all[2] == "u8"@ && all[3] == "u16"@);
    assert(all[4] == "u32"@ && all[5] == "u64"@ && all[6] == "i8"@ && all[7] == "i16"@);
    assert(all[8] == "i32"@ && all[9] == "i64"@ && all[10] == "f32"@ && all[11] == "f64"@);
    assert(all.len() == 12);
}

} // verus!
