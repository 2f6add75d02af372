//! Prompt templates and the cache of templates read so far.
//!
//! Reading a file is the caller's business: the loader says which file it
//! needs, and takes what the caller read.

use crate::error::{DiscliError, ErrorView};
use crate::paths::{
    extension, file_stem, is_absolute, join_paths, path_extension, path_file_stem, path_is_absolute,
    path_joined,
};
use crate::prompt::variables::{
    copy_range, placeholder_at, placeholder_len, placeholder_name, scan_placeholder,
};
use crate::text::{clone_list, from_chars, to_chars, views};
use vstd::hash_map::StringHashMap;
use vstd::prelude::*;
use vstd::string::StringExecFns;

verus! {

/// `a` comes before `b` in the order of strings: character by character,
/// a proper prefix first. Compares from index `from` on.
pub open spec fn lex_less_from(a: Seq<char>, b: Seq<char>, from: nat) -> bool
    decreases a.len() - from,
{
    if from >= b.len() {
        false
    } else if from >= a.len() {
        true
    } else if a[from as int] == b[from as int] {
        lex_less_from(a, b, from + 1)
    } else {
        a[from as int] < b[from as int]
    }
}

/// `a` comes before `b` in the order of strings.
pub open spec fn lex_less(a: Seq<char>, b: Seq<char>) -> bool {
    lex_less_from(a, b, 0)
}

/// Each element comes before every later one.
pub open spec fn strictly_ascending(list: Seq<Seq<char>>) -> bool {
    forall|i: int, j: int| 0 <= i < j < list.len() ==> lex_less(#[trigger] list[i], #[trigger] list[j])
}

/// The names of the placeholders met when `s` is read from index `from` on.
pub open spec fn placeholder_names(s: Seq<char>, from: int) -> Set<Seq<char>>
    decreases s.len() - from,
{
    if from < 0 || from >= s.len() {
        Set::empty()
    } else if placeholder_at(s, from) {
        placeholder_names(s, from + placeholder_len(s, from)).insert(placeholder_name(s, from))
    } else {
        placeholder_names(s, from + 1)
    }
}

/// `list` is the variable list of a template with content `content`: the
/// names of its placeholders, each once, in ascending order.
pub open spec fn is_variable_list(list: Seq<Seq<char>>, content: Seq<char>) -> bool {
    &&& strictly_ascending(list)
    &&& list.to_set() == placeholder_names(content, 0)
}

proof fn lemma_lex_transitive(a: Seq<char>, b: Seq<char>, c: Seq<char>, from: nat)
    requires
        lex_less_from(a, b, from),
        lex_less_from(b, c, from),
        forall|k: int| 0 <= k < from ==> a[k] == b[k] && b[k] == c[k],
    ensures
        lex_less_from(a, c, from),
    decreases a.len() - from,
{
    if from < a.len() && from < b.len() && from < c.len() {
        if a[from as int] == b[from as int] && b[from as int] == c[from as int] {
            lemma_lex_transitive(a, b, c, from + 1);
        }
    }
}

proof fn lemma_lex_total(a: Seq<char>, b: Seq<char>, from: nat)
    requires
        !lex_less_from(a, b, from),
        !lex_less_from(b, a, from),
        from <= a.len(),
        from <= b.len(),
        forall|k: int| 0 <= k < from ==> a[k] == b[k],
    ensures
        a == b,
    decreases a.len() - from,
{
    if from < a.len() && from < b.len() {
        lemma_lex_total(a, b, from + 1);
    } else {
        assert(a =~= b);
    }
}

proof fn lemma_lex_irreflexive(a: Seq<char>, from: nat)
    ensures
        !lex_less_from(a, a, from),
    decreases a.len() - from,
{
    if from < a.len() {
        lemma_lex_irreflexive(a, from + 1);
    }
}

/// Two ascending lists with the same elements are the same list: a
/// template's content determines its variable list.
pub proof fn variable_list_is_unique(a: Seq<Seq<char>>, b: Seq<Seq<char>>)
    requires
        strictly_ascending(a),
        strictly_ascending(b),
        a.to_set() == b.to_set(),
    ensures
        a == b,
    decreases a.len(),
{
    if a.len() == 0 {
        if b.len() > 0 {
            assert(b.to_set().contains(b[0])) by {
                assert(b.contains(b[0]));
            }
            assert(a.contains(b[0]));
        }
        assert(a =~= b);
    } else {
        assert(a.contains(a[a.len() - 1]));
        assert(b.to_set().contains(a[a.len() - 1]));
        assert(b.contains(a[a.len() - 1]));
        assert(b.len() > 0);
        let la = a.last();
        let lb = b.last();
        // Both last elements are the greatest of the common set.
        assert(la == lb) by {
            assert(b.contains(lb));
            assert(a.to_set().contains(lb));
            assert(a.contains(lb));
            let i = choose|i: int| 0 <= i < a.len() && a[i] == lb;
            let j = choose|j: int| 0 <= j < b.len() && b[j] == la;
            if i < a.len() - 1 {
                assert(lex_less(a[i], a[a.len() - 1]));
                if j < b.len() - 1 {
                    assert(lex_less(b[j], b[b.len() - 1]));
                    lemma_lex_transitive(la, lb, la, 0);
                    lemma_lex_irreflexive(la, 0);
                }
            }
        }
        let pa = a.drop_last();
        let pb = b.drop_last();
        assert(pa.to_set() =~= pb.to_set()) by {
            assert forall|x: Seq<char>| pa.contains(x) implies pb.contains(x) by {
                let i = choose|i: int| 0 <= i < pa.len() && pa[i] == x;
                assert(a[i] == x);
                assert(a.contains(x));
                assert(b.to_set().contains(x));
                assert(b.contains(x));
                let j = choose|j: int| 0 <= j < b.len() && b[j] == x;
                if j == b.len() - 1 {
                    assert(lex_less(a[i], a[a.len() - 1]));
                    lemma_lex_irreflexive(la, 0);
                }
                assert(pb[j] == x);
            }
            assert forall|x: Seq<char>| pb.contains(x) implies pa.contains(x) by {
                let j = choose|j: int| 0 <= j < pb.len() && pb[j] == x;
                assert(b[j] == x);
                assert(b.contains(x));
                assert(a.to_set().contains(x));
                assert(a.contains(x));
                let i = choose|i: int| 0 <= i < a.len() && a[i] == x;
                if i == a.len() - 1 {
                    assert(lex_less(b[j], b[b.len() - 1]));
                    lemma_lex_irreflexive(lb, 0);
                }
                assert(pa[i] == x);
            }
        }
        assert(strictly_ascending(pa)) by {
            assert forall|i: int, j: int| 0 <= i < j < pa.len() implies lex_less(
                #[trigger] pa[i],
                #[trigger] pa[j],
            ) by {
                assert(lex_less(a[i], a[j]));
            }
        }
        assert(strictly_ascending(pb)) by {
            assert forall|i: int, j: int| 0 <= i < j < pb.len() implies lex_less(
                #[trigger] pb[i],
                #[trigger] pb[j],
            ) by {
                assert(lex_less(b[i], b[j]));
            }
        }
        variable_list_is_unique(pa, pb);
        assert(a =~= pa.push(la));
        assert(b =~= pb.push(lb));
    }
}

/// The character sequences of a list of character vectors.
pub open spec fn rows(list: Seq<Vec<char>>) -> Seq<Seq<char>> {
    Seq::new(list.len(), |i: int| list[i]@)
}

fn chars_less(a: &Vec<char>, b: &Vec<char>) -> (less: bool)
    ensures
        less == lex_less(a@, b@),
{
    let mut i: usize = 0;
    loop
        invariant
            i <= a.len(),
            i <= b.len(),
            lex_less(a@, b@) == lex_less_from(a@, b@, i as nat),
        decreases a.len() - i,
    {
        if i >= b.len() {
            return false;
        }
        if i >= a.len() {
            return true;
        }
        if a[i] != b[i] {
            return a[i] < b[i];
        }
        i += 1;
    }
}

proof fn lemma_insert_to_set(list: Seq<Seq<char>>, at: int, name: Seq<char>)
    requires
        0 <= at <= list.len(),
    ensures
        list.insert(at, name).to_set() == list.to_set().insert(name),
{
    let grown = list.insert(at, name);
    assert forall|x: Seq<char>| grown.contains(x) <==> (list.contains(x) || x == name) by {
        if grown.contains(x) {
            let j = choose|j: int| 0 <= j < grown.len() && grown[j] == x;
            if j < at {
                assert(list[j] == x);
            } else if j > at {
                assert(list[j - 1] == x);
            }
        }
        if list.contains(x) {
            let j = choose|j: int| 0 <= j < list.len() && list[j] == x;
            if j < at {
                assert(grown[j] == x);
            } else {
                assert(grown[j + 1] == x);
            }
        }
        if x == name {
            assert(grown[at] == x);
        }
    }
    assert(grown.to_set() =~= list.to_set().insert(name));
}

/// Puts `name` at its place in the ascending list `sorted`, unless it is
/// there already.
fn insert_name(sorted: &mut Vec<Vec<char>>, name: Vec<char>)
    requires
        strictly_ascending(rows(old(sorted)@)),
    ensures
        strictly_ascending(rows(final(sorted)@)),
        rows(final(sorted)@).to_set() == rows(old(sorted)@).to_set().insert(name@),
{
    let mut at: usize = 0;
    while at < sorted.len() && chars_less(&sorted[at], &name)
        invariant
            at <= sorted.len(),
            sorted@ == old(sorted)@,
            forall|k: int| 0 <= k < at ==> lex_less(#[trigger] rows(sorted@)[k], name@),
        decreases sorted.len() - at,
    {
        at += 1;
    }
    let ghost before = rows(sorted@);
    if at < sorted.len() && !chars_less(&name, &sorted[at]) {
        proof {
            lemma_lex_total(name@, before[at as int], 0);
            assert(before.contains(name@));
            assert(before.to_set().insert(name@) =~= before.to_set());
        }
        return ;
    }
    sorted.insert(at, name);
    proof {
        let after = rows(sorted@);
        assert(after =~= before.insert(at as int, name@));
        lemma_insert_to_set(before, at as int, name@);
        assert forall|i: int, j: int| 0 <= i < j < after.len() implies lex_less(
            #[trigger] after[i],
            #[trigger] after[j],
        ) by {
            if j < at {
                assert(lex_less(before[i], before[j]));
            } else if j == at {
                assert(lex_less(before[i], name@));
            } else if i == at {
                assert(lex_less(name@, before[at as int]));
                if j - 1 > at {
                    assert(lex_less(before[at as int], before[j - 1]));
                    lemma_lex_transitive(name@, before[at as int], before[j - 1], 0);
                }
            } else if i < at {
                assert(lex_less(before[i], before[j - 1]));
            } else {
                assert(lex_less(before[i - 1], before[j - 1]));
            }
        }
    }
}

/// The variable list of a template with content `content`.
pub open spec fn variables_of(content: Seq<char>) -> Seq<Seq<char>> {
    choose|list: Seq<Seq<char>>| is_variable_list(list, content)
}

/// The names of the placeholders of `template`, each once, in ascending
/// order.
pub fn extract_variables(template: &str) -> (out: Vec<String>)
    ensures
        is_variable_list(views(out@), template@),
        views(out@) == variables_of(template@),
{
    let chars = to_chars(template);
    let mut sorted: Vec<Vec<char>> = Vec::new();
    let mut at: usize = 0;
    proof {
        assert(rows(sorted@).to_set() =~= Set::<Seq<char>>::empty());
        assert(placeholder_names(chars@, 0) =~= rows(sorted@).to_set().union(
            placeholder_names(chars@, 0),
        ));
    }
    while at < chars.len()
        invariant
            at <= chars.len(),
            chars@ == template@,
            strictly_ascending(rows(sorted@)),
            placeholder_names(chars@, 0) == rows(sorted@).to_set().union(
                placeholder_names(chars@, at as int),
            ),
        decreases chars.len() - at,
    {
        let ghost found = rows(sorted@).to_set();
        match scan_placeholder(&chars, at) {
            Some(n) => {
                let name = copy_range(&chars, at + 2, at + 2 + n);
                insert_name(&mut sorted, name);
                proof {
                    let rest = placeholder_names(chars@, at + n + 4);
                    let name = placeholder_name(chars@, at as int);
                    assert(found.union(rest.insert(name)) =~= found.insert(name).union(rest));
                }
                at = at + n + 4;
            },
            None => {
                at += 1;
            },
        }
    }
    let mut out: Vec<String> = Vec::new();
    let mut i: usize = 0;
    while i < sorted.len()
        invariant
            i <= sorted.len(),
            out@.len() == i,
            forall|k: int| 0 <= k < i ==> out@[k]@ == sorted@[k]@,
        decreases sorted.len() - i,
    {
        out.push(from_chars(&sorted[i]));
        i += 1;
    }
    proof {
        assert(views(out@) =~= rows(sorted@));
        assert(rows(sorted@).to_set().union(placeholder_names(chars@, chars@.len() as int))
            =~= rows(sorted@).to_set());
        assert(is_variable_list(views(out@), template@));
        variable_list_is_unique(views(out@), variables_of(template@));
    }
    out
}

/// A prompt template as read from a file.
#[derive(Debug)]
pub struct PromptTemplate {
    /// File name without extension.
    pub name: String,
    /// The text, placeholders included.
    pub content: String,
    /// Names of the placeholders in the text, each once, ascending.
    pub variables: Vec<String>,
}

/// Mathematical image of a [`PromptTemplate`].
pub struct TemplateView {
    pub name: Seq<char>,
    pub content: Seq<char>,
    pub variables: Seq<Seq<char>>,
}

impl View for PromptTemplate {
    type V = TemplateView;

    open spec fn view(&self) -> TemplateView {
        TemplateView {
            name: self.name@,
            content: self.content@,
            variables: views(self.variables@),
        }
    }
}

impl Clone for PromptTemplate {
    fn clone(&self) -> (out: Self)
        ensures
            out@ == self@,
    {
        PromptTemplate {
            name: self.name.clone(),
            content: self.content.clone(),
            variables: clone_list(&self.variables),
        }
    }
}

/// The template that a file at `path` with text `content` holds: named by
/// the file's stem, or `unknown` where the path has none.
pub open spec fn template_of(path: Seq<char>, content: Seq<char>) -> TemplateView {
    TemplateView {
        name: match path_file_stem(path) {
            Some(stem) => stem,
            None => "unknown"@,
        },
        content,
        variables: variables_of(content),
    }
}

/// What becomes of a file that was read, or could not be: its template, or
/// the I/O error with the reason.
pub open spec fn read_outcome(path: Seq<char>, read: Result<Seq<char>, Seq<char>>) -> Result<
    TemplateView,
    ErrorView,
> {
    match read {
        Ok(content) => Ok(template_of(path, content)),
        Err(reason) => Err(ErrorView::Io(reason)),
    }
}

/// The views of what was read of a file.
pub open spec fn read_view(read: Result<String, String>) -> Result<Seq<char>, Seq<char>> {
    match read {
        Ok(content) => Ok(content@),
        Err(reason) => Err(reason@),
    }
}

/// The views of a load's result.
pub open spec fn load_view(out: Result<PromptTemplate, DiscliError>) -> Result<
    TemplateView,
    ErrorView,
> {
    match out {
        Ok(template) => Ok(template@),
        Err(e) => Err(e@),
    }
}

impl PromptTemplate {
    /// Builds the template of the file at `path` from what reading it gave:
    /// its text, or the reason why it could not be read.
    pub fn load(path: &str, read: Result<String, String>) -> (out: Result<
        PromptTemplate,
        DiscliError,
    >)
        ensures
            load_view(out) == read_outcome(path@, read_view(read)),
    {
        match read {
            Ok(content) => {
                let name = match file_stem(path) {
                    Some(stem) => stem,
                    None => String::from_str("unknown"),
                };
                let variables = extract_variables(content.as_str());
                Ok(PromptTemplate { name, content, variables })
            },
            Err(reason) => Err(DiscliError::Io(reason)),
        }
    }
}

/// One file of a directory listing, with what reading it gave.
#[derive(Debug)]
pub struct DirFile {
    /// The file's path as listed.
    pub path: String,
    /// The file's text, or the reason why it could not be read. Not looked
    /// at where the loader holds the file already.
    pub read: Result<String, String>,
}

/// The file that a path names: the path itself where it is absolute, else
/// the path below the prompts directory.
pub open spec fn resolved_path(dir: Seq<char>, path: Seq<char>) -> Seq<char> {
    if path_is_absolute(path) {
        path
    } else {
        path_joined(dir, path)
    }
}

/// What loading `path` gives with `cache` at hand: the cached template, or
/// what the file that was read gives.
pub open spec fn load_outcome(
    cache: Map<Seq<char>, TemplateView>,
    dir: Seq<char>,
    path: Seq<char>,
    read: Result<Seq<char>, Seq<char>>,
) -> Result<TemplateView, ErrorView> {
    let key = resolved_path(dir, path);
    if cache.contains_key(key) {
        Ok(cache[key])
    } else {
        read_outcome(key, read)
    }
}

/// The cache after loading `path`: a template that was read is added under
/// its resolved path, and nothing else changes.
pub open spec fn cache_after_load(
    cache: Map<Seq<char>, TemplateView>,
    dir: Seq<char>,
    path: Seq<char>,
    read: Result<Seq<char>, Seq<char>>,
) -> Map<Seq<char>, TemplateView> {
    let key = resolved_path(dir, path);
    if cache.contains_key(key) {
        cache
    } else {
        match read {
            Ok(content) => cache.insert(key, template_of(key, content)),
            Err(_) => cache,
        }
    }
}

/// Whether a directory entry is taken for a template: its extension is
/// `txt`.
pub open spec fn is_template_file(path: Seq<char>) -> bool {
    path_extension(path) == Some("txt"@)
}

/// The cache after the first `count` files of a listing were loaded.
pub open spec fn cache_after_files(
    cache: Map<Seq<char>, TemplateView>,
    dir: Seq<char>,
    files: Seq<DirFile>,
    count: nat,
) -> Map<Seq<char>, TemplateView>
    decreases count,
{
    if count == 0 || count > files.len() {
        cache
    } else {
        let before = cache_after_files(cache, dir, files, (count - 1) as nat);
        let file = files[count - 1];
        if is_template_file(file.path@) {
            cache_after_load(before, dir, file.path@, read_view(file.read))
        } else {
            before
        }
    }
}

/// The templates that the first `count` files of a listing gave, in order:
/// one for each template file that loaded.
pub open spec fn templates_of_files(
    cache: Map<Seq<char>, TemplateView>,
    dir: Seq<char>,
    files: Seq<DirFile>,
    count: nat,
) -> Seq<TemplateView>
    decreases count,
{
    if count == 0 || count > files.len() {
        Seq::empty()
    } else {
        let before = cache_after_files(cache, dir, files, (count - 1) as nat);
        let found = templates_of_files(cache, dir, files, (count - 1) as nat);
        let file = files[count - 1];
        if is_template_file(file.path@) {
            match load_outcome(before, dir, file.path@, read_view(file.read)) {
                Ok(template) => found.push(template),
                Err(_) => found,
            }
        } else {
            found
        }
    }
}

/// The views of a list of templates.
pub open spec fn template_views(list: Seq<PromptTemplate>) -> Seq<TemplateView> {
    Seq::new(list.len(), |i: int| list[i]@)
}

/// Templates by resolved path, each read at most once.
pub struct PromptLoader {
    prompts_dir: String,
    cache: StringHashMap<PromptTemplate>,
}

impl PromptLoader {
    /// The directory that relative paths are resolved against.
    pub closed spec fn dir(&self) -> Seq<char> {
        self.prompts_dir@
    }

    /// The templates held, by resolved path.
    pub closed spec fn cached(&self) -> Map<Seq<char>, TemplateView> {
        self.cache@.map_values(|t: PromptTemplate| t@)
    }

    /// A loader for `prompts_dir` that holds nothing yet.
    pub fn new(prompts_dir: String) -> (out: Self)
        ensures
            out.dir() == prompts_dir@,
            out.cached() == Map::<Seq<char>, TemplateView>::empty(),
    {
        let out = PromptLoader { prompts_dir, cache: StringHashMap::new() };
        assert(out.cached() =~= Map::<Seq<char>, TemplateView>::empty());
        out
    }

    /// The file that `path` names.
    pub fn resolve(&self, path: &str) -> (out: String)
        ensures
            out@ == resolved_path(self.dir(), path@),
    {
        if is_absolute(path) {
            String::from_str(path)
        } else {
            join_paths(self.prompts_dir.as_str(), path)
        }
    }

    /// The file that has to be read before `path` can be loaded, or nothing
    /// where the loader holds its template already.
    pub fn needs_read(&self, path: &str) -> (out: Option<String>)
        ensures
            out is None <==> self.cached().contains_key(resolved_path(self.dir(), path@)),
            out matches Some(file) ==> file@ == resolved_path(self.dir(), path@),
    {
        let key = self.resolve(path);
        if self.cache.contains_key(key.as_str()) {
            None
        } else {
            Some(key)
        }
    }

    /// Loads the template that `path` names. A template that is held
    /// already is handed out again and `read` is not looked at; otherwise
    /// `read` is what reading the resolved file gave, and a template that
    /// was read is kept.
    pub fn load(&mut self, path: &str, read: Result<String, String>) -> (out: Result<
        PromptTemplate,
        DiscliError,
    >)
        ensures
            final(self).dir() == old(self).dir(),
            load_view(out) == load_outcome(old(self).cached(), old(self).dir(), path@, read_view(read)),
            final(self).cached() == cache_after_load(
                old(self).cached(),
                old(self).dir(),
                path@,
                read_view(read),
            ),
    {
        let key = self.resolve(path);
        match self.cache.get(key.as_str()) {
            Some(template) => {
                return Ok(template.clone());
            },
            None => {},
        }
        match PromptTemplate::load(key.as_str(), read) {
            Ok(template) => {
                let copy = template.clone();
                self.cache.insert(key, template);
                assert(final(self).cached() =~= old(self).cached().insert(key@, copy@));
                Ok(copy)
            },
            Err(e) => Err(e),
        }
    }

    /// Loads every template file of a directory listing, in order. A file
    /// that could not be read is passed over.
    pub fn load_all(&mut self, files: Vec<DirFile>) -> (out: Vec<PromptTemplate>)
        ensures
            final(self).dir() == old(self).dir(),
            template_views(out@) == templates_of_files(
                old(self).cached(),
                old(self).dir(),
                files@,
                files@.len(),
            ),
            final(self).cached() == cache_after_files(
                old(self).cached(),
                old(self).dir(),
                files@,
                files@.len(),
            ),
    {
        let mut out: Vec<PromptTemplate> = Vec::new();
        let mut files = files;
        let ghost all = files@;
        let mut rest: Vec<DirFile> = Vec::new();
        // Take the files from the back, so that each is owned when loaded.
        while files.len() > 0
            invariant
                files@.len() + rest@.len() == all.len(),
                forall|k: int| 0 <= k < files@.len() ==> files@[k] == all[k],
                forall|k: int|
                    0 <= k < rest@.len() ==> rest@[k] == all[all.len() - 1 - k],
            decreases files@.len(),
        {
            match files.pop() {
                Some(file) => rest.push(file),
                None => {},
            }
        }
        assert(template_views(out@) =~= Seq::<TemplateView>::empty());
        let ghost mut done: nat = 0;
        while rest.len() > 0
            invariant
                done + rest@.len() == all.len(),
                forall|k: int|
                    0 <= k < rest@.len() ==> rest@[k] == all[all.len() - 1 - k],
                self.dir() == old(self).dir(),
                template_views(out@) == templates_of_files(
                    old(self).cached(),
                    old(self).dir(),
                    all,
                    done,
                ),
                self.cached() == cache_after_files(
                    old(self).cached(),
                    old(self).dir(),
                    all,
                    done,
                ),
            decreases rest@.len(),
        {
            let ghost found = template_views(out@);
            match rest.pop() {
                Some(file) => {
                    assert(file == all[done as int]);
                    let is_template = match extension(file.path.as_str()) {
                        Some(ext) => crate::text::equal(ext.as_str(), "txt"),
                        None => false,
                    };
                    if is_template {
                        let DirFile { path, read } = file;
                        match self.load(path.as_str(), read) {
                            Ok(template) => {
                                out.push(template);
                                assert(template_views(out@) =~= found.push(template@));
                            },
                            Err(_) => {},
                        }
                    }
                    proof {
                        done = done + 1;
                    }
                },
                None => {},
            }
        }
        out
    }

    /// Forgets every template held.
    pub fn clear_cache(&mut self)
        ensures
            final(self).dir() == old(self).dir(),
            final(self).cached() == Map::<Seq<char>, TemplateView>::empty(),
    {
        self.cache.clear();
        assert(final(self).cached() =~= Map::<Seq<char>, TemplateView>::empty());
    }
}

} // verus!
