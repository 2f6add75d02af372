//! The variables of one inbound message and their substitution into a
//! template.
//!
//! A placeholder is `{{`, one or more word characters, `}}`. A template is
//! read from left to right; where a placeholder starts it is replaced as a
//! whole, elsewhere one character is copied and reading goes on behind it.

use crate::text::{clone_list, decimal, decimal_string, from_chars, join, joined, to_chars, views};
use vstd::hash_map::StringHashMap;
use vstd::prelude::*;
use vstd::string::StringExecFns;

verus! {

/// Whether `regex_syntax::is_word_character` holds `c` for a word character.
pub uninterp spec fn word_character(c: char) -> bool;

/// `regex_syntax::is_word_character` decides by the character alone whether
/// it is a Unicode word character, the class that `\w` denotes. It needs the
/// crate's Unicode tables, which its default features supply.
pub assume_specification[ regex_syntax::is_word_character ](c: char) -> (word: bool)
    ensures
        word == word_character(c),
;

/// Snapshot of one inbound message.
#[derive(Debug)]
pub struct MessageVariables {
    /// Text of the message.
    pub content: String,
    /// Author's id.
    pub author_id: String,
    /// Author's display name.
    pub author_name: String,
    /// Channel the message arrived on.
    pub channel_id: String,
    /// Id of the message.
    pub message_id: String,
    /// Time of the message, ISO 8601.
    pub timestamp: String,
    /// File names of the attachments.
    pub attachments: Vec<String>,
    /// Number of embeds.
    pub embed_count: usize,
}

/// Mathematical image of a [`MessageVariables`].
pub struct VariablesView {
    pub content: Seq<char>,
    pub author_id: Seq<char>,
    pub author_name: Seq<char>,
    pub channel_id: Seq<char>,
    pub message_id: Seq<char>,
    pub timestamp: Seq<char>,
    pub attachments: Seq<Seq<char>>,
    pub embed_count: nat,
}

impl VariablesView {
    /// The substitution map: each variable's name with its text.
    pub open spec fn as_map(self) -> Map<Seq<char>, Seq<char>> {
        Map::<Seq<char>, Seq<char>>::empty().insert("content"@, self.content).insert(
            "author_id"@,
            self.author_id,
        ).insert("author_name"@, self.author_name).insert("channel_id"@, self.channel_id).insert(
            "message_id"@,
            self.message_id,
        ).insert("timestamp"@, self.timestamp).insert(
            "attachments"@,
            joined(self.attachments, ", "@),
        ).insert("embed_count"@, decimal(self.embed_count))
    }

    /// The text of the variable called `name`, if there is one.
    pub open spec fn lookup(self, name: Seq<char>) -> Option<Seq<char>> {
        if self.as_map().contains_key(name) {
            Some(self.as_map()[name])
        } else {
            None
        }
    }
}

impl View for MessageVariables {
    type V = VariablesView;

    open spec fn view(&self) -> VariablesView {
        VariablesView {
            content: self.content@,
            author_id: self.author_id@,
            author_name: self.author_name@,
            channel_id: self.channel_id@,
            message_id: self.message_id@,
            timestamp: self.timestamp@,
            attachments: views(self.attachments@),
            embed_count: self.embed_count as nat,
        }
    }
}

impl Clone for MessageVariables {
    fn clone(&self) -> (out: Self)
        ensures
            out@ == self@,
    {
        MessageVariables {
            content: self.content.clone(),
            author_id: self.author_id.clone(),
            author_name: self.author_name.clone(),
            channel_id: self.channel_id.clone(),
            message_id: self.message_id.clone(),
            timestamp: self.timestamp.clone(),
            attachments: clone_list(&self.attachments),
            embed_count: self.embed_count,
        }
    }
}

/// A map from names to strings holds exactly the texts of `expected`.
pub open spec fn holds_texts(map: Map<Seq<char>, String>, expected: Map<Seq<char>, Seq<char>>) -> bool {
    &&& map.dom() == expected.dom()
    &&& forall|name: Seq<char>| #[trigger] expected.contains_key(name) ==> map[name]@ == expected[name]
}

impl MessageVariables {
    /// All variables by name, ready for substitution.
    pub fn to_map(&self) -> (out: StringHashMap<String>)
        ensures
            holds_texts(out@, self@.as_map()),
    {
        let mut map: StringHashMap<String> = StringHashMap::new();
        map.insert(String::from_str("content"), self.content.clone());
        map.insert(String::from_str("author_id"), self.author_id.clone());
        map.insert(String::from_str("author_name"), self.author_name.clone());
        map.insert(String::from_str("channel_id"), self.channel_id.clone());
        map.insert(String::from_str("message_id"), self.message_id.clone());
        map.insert(String::from_str("timestamp"), self.timestamp.clone());
        map.insert(String::from_str("attachments"), join(&self.attachments, ", "));
        map.insert(String::from_str("embed_count"), decimal_string(self.embed_count as u64));
        assert(map@.dom() =~= self@.as_map().dom());
        map
    }
}

/// Number of word characters of `s` in a row, counted from index `from`.
pub open spec fn word_run(s: Seq<char>, from: int) -> nat
    decreases s.len() - from,
{
    if 0 <= from < s.len() && word_character(s[from]) {
        1 + word_run(s, from + 1)
    } else {
        0
    }
}

/// A placeholder starts at index `at` of `s`.
pub open spec fn placeholder_at(s: Seq<char>, at: int) -> bool {
    let n = word_run(s, at + 2);
    &&& 0 <= at
    &&& at + 1 < s.len()
    &&& s[at] == '{'
    &&& s[at + 1] == '{'
    &&& n >= 1
    &&& at + n + 3 < s.len()
    &&& s[at + 2 + n] == '}'
    &&& s[at + 3 + n] == '}'
}

/// Number of characters of the placeholder that starts at `at`.
pub open spec fn placeholder_len(s: Seq<char>, at: int) -> int {
    (word_run(s, at + 2) + 4) as int
}

/// Name of the placeholder that starts at `at`.
pub open spec fn placeholder_name(s: Seq<char>, at: int) -> Seq<char> {
    s.subrange(at + 2, at + 2 + word_run(s, at + 2))
}

/// What stands in the output for the placeholder at `at`: the variable's
/// text, or the placeholder itself where no variable has its name.
pub open spec fn replacement(s: Seq<char>, vars: VariablesView, at: int) -> Seq<char> {
    match vars.lookup(placeholder_name(s, at)) {
        Some(text) => text,
        None => s.subrange(at, at + placeholder_len(s, at)),
    }
}

/// The rendering of `s` from index `from` on.
pub open spec fn rendered_from(s: Seq<char>, vars: VariablesView, from: int) -> Seq<char>
    decreases s.len() - from,
{
    if from < 0 || from >= s.len() {
        Seq::empty()
    } else if placeholder_at(s, from) {
        replacement(s, vars, from) + rendered_from(s, vars, from + placeholder_len(s, from))
    } else {
        seq![s[from]] + rendered_from(s, vars, from + 1)
    }
}

/// The rendering of a whole template.
pub open spec fn rendered(s: Seq<char>, vars: VariablesView) -> Seq<char> {
    rendered_from(s, vars, 0)
}

/// Reading `s` from index `from` on meets a placeholder that names a
/// variable.
pub open spec fn resolves_from(s: Seq<char>, vars: VariablesView, from: int) -> bool
    decreases s.len() - from,
{
    if from < 0 || from >= s.len() {
        false
    } else if placeholder_at(s, from) {
        vars.lookup(placeholder_name(s, from)) is Some || resolves_from(
            s,
            vars,
            from + placeholder_len(s, from),
        )
    } else {
        resolves_from(s, vars, from + 1)
    }
}

/// The template holds a placeholder that names a variable.
pub open spec fn resolves(s: Seq<char>, vars: VariablesView) -> bool {
    resolves_from(s, vars, 0)
}

fn count_word_run(chars: &Vec<char>, from: usize) -> (n: usize)
    requires
        from <= chars.len(),
    ensures
        n == word_run(chars@, from as int),
        from + n <= chars.len(),
{
    let mut end: usize = from;
    while end < chars.len() && regex_syntax::is_word_character(chars[end])
        invariant
            from <= end <= chars.len(),
            word_run(chars@, from as int) == (end - from) + word_run(chars@, end as int),
        decreases chars.len() - end,
    {
        end += 1;
    }
    end - from
}

/// Length of the name of the placeholder at `at`, if one starts there.
pub(crate) fn scan_placeholder(chars: &Vec<char>, at: usize) -> (name_len: Option<usize>)
    requires
        at < chars.len(),
    ensures
        name_len is Some <==> placeholder_at(chars@, at as int),
        name_len matches Some(n) ==> n == word_run(chars@, at + 2) && at + n + 4 <= chars.len(),
{
    if chars.len() - at < 2 {
        return None;
    }
    if chars[at] != '{' || chars[at + 1] != '{' {
        return None;
    }
    let n = count_word_run(chars, at + 2);
    if n == 0 {
        return None;
    }
    let close = at + 2 + n;
    if chars.len() - close < 2 {
        return None;
    }
    if chars[close] != '}' || chars[close + 1] != '}' {
        return None;
    }
    Some(n)
}

fn push_range(out: &mut Vec<char>, chars: &Vec<char>, from: usize, to: usize)
    requires
        from <= to <= chars.len(),
    ensures
        final(out)@ == old(out)@ + chars@.subrange(from as int, to as int),
{
    let mut i: usize = from;
    while i < to
        invariant
            from <= i <= to <= chars.len(),
            out@ == old(out)@ + chars@.subrange(from as int, i as int),
        decreases to - i,
    {
        out.push(chars[i]);
        assert(chars@.subrange(from as int, i + 1) =~= chars@.subrange(from as int, i as int).push(
            chars@[i as int],
        ));
        i += 1;
    }
}

pub(crate) fn copy_range(chars: &Vec<char>, from: usize, to: usize) -> (out: Vec<char>)
    requires
        from <= to <= chars.len(),
    ensures
        out@ == chars@.subrange(from as int, to as int),
{
    let mut out: Vec<char> = Vec::new();
    push_range(&mut out, chars, from, to);
    out
}

/// Replaces every placeholder of `template` that names a variable by the
/// variable's text. Placeholders with other names stay as they are.
pub fn substitute_variables(template: &str, vars: &MessageVariables) -> (out: String)
    ensures
        out@ == rendered(template@, vars@),
{
    let map = vars.to_map();
    let chars = to_chars(template);
    let mut out: Vec<char> = Vec::new();
    let mut at: usize = 0;
    while at < chars.len()
        invariant
            at <= chars.len(),
            chars@ == template@,
            holds_texts(map@, vars@.as_map()),
            rendered(chars@, vars@) == out@ + rendered_from(chars@, vars@, at as int),
        decreases chars.len() - at,
    {
        match scan_placeholder(&chars, at) {
            Some(n) => {
                let name = from_chars(&copy_range(&chars, at + 2, at + 2 + n));
                match map.get(name.as_str()) {
                    Some(text) => {
                        let value = to_chars(text.as_str());
                        let count = value.len();
                        push_range(&mut out, &value, 0, count);
                        assert(value@.subrange(0, count as int) =~= value@);
                    },
                    None => {
                        push_range(&mut out, &chars, at, at + n + 4);
                    },
                }
                at = at + n + 4;
            },
            None => {
                out.push(chars[at]);
                at += 1;
            },
        }
    }
    from_chars(&out)
}

/// Wherever reading meets a placeholder whose name is no variable's, the
/// placeholder goes to the output as it stands and reading goes on behind
/// it.
pub proof fn unknown_placeholder_is_copied(template: Seq<char>, vars: VariablesView, at: int)
    requires
        placeholder_at(template, at),
        vars.lookup(placeholder_name(template, at)) is None,
    ensures
        rendered_from(template, vars, at) == template.subrange(
            at,
            at + placeholder_len(template, at),
        ) + rendered_from(template, vars, at + placeholder_len(template, at)),
{
}

/// A template without a placeholder that names a variable renders to itself.
proof fn lemma_unresolved_rendering(s: Seq<char>, vars: VariablesView, from: int)
    requires
        0 <= from <= s.len(),
        !resolves_from(s, vars, from),
    ensures
        rendered_from(s, vars, from) == s.subrange(from, s.len() as int),
    decreases s.len() - from,
{
    if from >= s.len() {
        assert(s.subrange(from, s.len() as int) =~= Seq::<char>::empty());
    } else if placeholder_at(s, from) {
        let next = from + placeholder_len(s, from);
        lemma_unresolved_rendering(s, vars, next);
        assert(s.subrange(from, next) + s.subrange(next, s.len() as int) =~= s.subrange(
            from,
            s.len() as int,
        ));
    } else {
        lemma_unresolved_rendering(s, vars, from + 1);
        assert(seq![s[from]] + s.subrange(from + 1, s.len() as int) =~= s.subrange(
            from,
            s.len() as int,
        ));
    }
}

/// Substitution leaves a template unchanged unless it holds a placeholder
/// that names a variable: placeholders with unknown names are kept verbatim.
pub proof fn unknown_placeholders_are_kept(template: Seq<char>, vars: VariablesView)
    requires
        !resolves(template, vars),
    ensures
        rendered(template, vars) == template,
{
    lemma_unresolved_rendering(template, vars, 0);
    assert(template.subrange(0, template.len() as int) =~= template);
}

/// Substitution is idempotent on what it leaves unresolved: once a rendering
/// holds no placeholder that names a variable, rendering it again changes
/// nothing.
pub proof fn rendering_is_idempotent(template: Seq<char>, vars: VariablesView)
    requires
        !resolves(rendered(template, vars), vars),
    ensures
        rendered(rendered(template, vars), vars) == rendered(template, vars),
{
    unknown_placeholders_are_kept(rendered(template, vars), vars);
}

} // verus!
