use vstd::prelude::*;

use crate::command::{command_kind, kind_of_protocol_name, lemma_protocol_name_decodes, payload_fields, protocol_name, ScepterCapability, ScepterCommand};
use crate::text::{compare_text, lemma_text_lt_irreflexive, lemma_text_lt_transitive, text_lt, TextOrder};
use crate::command::ScepterCapability::{
    AttributeRead, AttributeWrite, Preview, ProjectRead, ProjectWrite, RegionRead, RegionWrite,
    ScriptRead, ScriptWrite, TileRead, TileWrite, Undo,
};

verus! {

// ---------------------------------------------------------------------------
// Command metadata
// ---------------------------------------------------------------------------

/// The abstract content of a [`ScepterParamMeta`].
#[verifier::ext_equal]
pub struct ParamMetaView {
    pub name: Seq<char>,
    pub description: Seq<char>,
    pub required: bool,
    pub schema: Seq<char>,
}

/// One command parameter entry in the Scepter Lorebook.
#[derive(Debug, Clone, PartialEq, Eq)]
pub struct ScepterParamMeta {
    pub name: String,
    pub description: String,
    pub required: bool,
    pub schema: String,
}

impl View for ScepterParamMeta {
    type V = ParamMetaView;

    open spec fn view(&self) -> ParamMetaView {
        ParamMetaView {
            name: self.name@,
            description: self.description@,
            required: self.required,
            schema: self.schema@,
        }
    }
}

impl ScepterParamMeta {
    /// A parameter entry with the given name, description, requiredness and schema.
    pub fn new(name: &str, description: &str, required: bool, schema: &str) -> (p: Self)
        ensures
            p@ == (ParamMetaView {
                name: name@,
                description: description@,
                required: required,
                schema: schema@,
            }),
    {
        ScepterParamMeta {
            name: String::from_str(name),
            description: String::from_str(description),
            required,
            schema: String::from_str(schema),
        }
    }
}

/// The abstract content of a [`ScepterCommandMeta`]; examples are JSON texts.
#[verifier::ext_equal]
pub struct CommandMetaView {
    pub name: Seq<char>,
    pub description: Seq<char>,
    pub params: Seq<ParamMetaView>,
    pub previewable: bool,
    pub undoable: bool,
    pub capabilities: Seq<ScepterCapability>,
    pub examples: Seq<Seq<char>>,
}

/// Machine-readable help for a single Scepter command.
///
/// Each example is a complete JSON request document (`{"command": .., "params": ..}`)
/// held as JSON text.
#[derive(Debug, Clone, PartialEq, Eq)]
pub struct ScepterCommandMeta {
    pub name: String,
    pub description: String,
    pub params: Vec<ScepterParamMeta>,
    pub previewable: bool,
    pub undoable: bool,
    pub capabilities: Vec<ScepterCapability>,
    pub examples: Vec<String>,
}

/// The views of a sequence of parameter entries.
pub open spec fn param_views(params: Seq<ScepterParamMeta>) -> Seq<ParamMetaView> {
    params.map_values(|p: ScepterParamMeta| p@)
}

/// The views of a sequence of texts.
pub open spec fn text_views(texts: Seq<String>) -> Seq<Seq<char>> {
    texts.map_values(|s: String| s@)
}

impl View for ScepterCommandMeta {
    type V = CommandMetaView;

    open spec fn view(&self) -> CommandMetaView {
        CommandMetaView {
            name: self.name@,
            description: self.description@,
            params: param_views(self.params@),
            previewable: self.previewable,
            undoable: self.undoable,
            capabilities: self.capabilities@,
            examples: text_views(self.examples@),
        }
    }
}

impl ScepterCommandMeta {
    /// Help for a command with the given name and description: no parameters,
    /// not previewable, not undoable, no capabilities and no examples.
    pub fn new(name: &str, description: &str) -> (m: Self)
        ensures
            m@ == (CommandMetaView {
                name: name@,
                description: description@,
                params: Seq::empty(),
                previewable: false,
                undoable: false,
                capabilities: Seq::empty(),
                examples: Seq::empty(),
            }),
    {
        let m = ScepterCommandMeta {
            name: String::from_str(name),
            description: String::from_str(description),
            params: Vec::new(),
            previewable: false,
            undoable: false,
            capabilities: Vec::new(),
            examples: Vec::new(),
        };
        proof {
            assert(param_views(m.params@) =~= Seq::empty());
            assert(text_views(m.examples@) =~= Seq::empty());
        }
        m
    }

    /// Replaces the parameter list.
    pub fn params(self, params: Vec<ScepterParamMeta>) -> (m: Self)
        ensures
            m@ == (CommandMetaView { params: param_views(params@), ..self@ }),
    {
        let mut m = self;
        m.params = params;
        m
    }

    /// Replaces the capability list.
    pub fn capabilities(self, capabilities: Vec<ScepterCapability>) -> (m: Self)
        ensures
            m@ == (CommandMetaView { capabilities: capabilities@, ..self@ }),
    {
        let mut m = self;
        m.capabilities = capabilities;
        m
    }

    /// Marks the command as previewable.
    pub fn previewable(self) -> (m: Self)
        ensures
            m@ == (CommandMetaView { previewable: true, ..self@ }),
    {
        let mut m = self;
        m.previewable = true;
        m
    }

    /// Marks the command as undoable.
    pub fn undoable(self) -> (m: Self)
        ensures
            m@ == (CommandMetaView { undoable: true, ..self@ }),
    {
        let mut m = self;
        m.undoable = true;
        m
    }

    /// Replaces the example list.
    pub fn examples(self, examples: Vec<String>) -> (m: Self)
        ensures
            m@ == (CommandMetaView { examples: text_views(examples@), ..self@ }),
    {
        let mut m = self;
        m.examples = examples;
        m
    }
}


// ---------------------------------------------------------------------------
// The Lorebook
// ---------------------------------------------------------------------------

/// The views of a sequence of command entries.
pub open spec fn meta_views(s: Seq<ScepterCommandMeta>) -> Seq<CommandMetaView> {
    s.map_values(|m: ScepterCommandMeta| m@)
}

/// The catalog described by a sequence of command entries: each name maps to
/// the last entry that carries it.
pub open spec fn entries_of(s: Seq<CommandMetaView>) -> Map<Seq<char>, CommandMetaView>
    decreases s.len(),
{
    if s.len() == 0 {
        Map::empty()
    } else {
        entries_of(s.drop_last()).insert(s.last().name, s.last())
    }
}

/// The entries are strictly sorted by name (so no name occurs twice).
pub open spec fn names_sorted(s: Seq<CommandMetaView>) -> bool {
    forall|i: int, j: int| 0 <= i < j < s.len() ==> text_lt(#[trigger] s[i].name, #[trigger] s[j].name)
}

/// No name occurs twice among the entries.
pub open spec fn names_distinct(s: Seq<CommandMetaView>) -> bool {
    forall|i: int, j: int| 0 <= i < s.len() && 0 <= j < s.len() && i != j ==> #[trigger] s[i].name != #[trigger] s[j].name
}

proof fn lemma_sorted_distinct(s: Seq<CommandMetaView>)
    requires
        names_sorted(s),
    ensures
        names_distinct(s),
{
    assert forall|i: int, j: int| 0 <= i < s.len() && 0 <= j < s.len() && i != j implies #[trigger] s[i].name != #[trigger] s[j].name by {
        lemma_text_lt_irreflexive(s[i].name);
    }
}

/// A name is in the catalog exactly when some entry carries it.
pub proof fn lemma_entries_keys(s: Seq<CommandMetaView>, k: Seq<char>)
    ensures
        entries_of(s).contains_key(k) <==> exists|i: int| 0 <= i < s.len() && #[trigger] s[i].name == k,
    decreases s.len(),
{
    if s.len() > 0 {
        lemma_entries_keys(s.drop_last(), k);
        if entries_of(s.drop_last()).contains_key(k) {
            let i = choose|i: int| 0 <= i < s.drop_last().len() && #[trigger] s.drop_last()[i].name == k;
            assert(s[i].name == k);
        }
        if exists|i: int| 0 <= i < s.len() && #[trigger] s[i].name == k {
            let i = choose|i: int| 0 <= i < s.len() && #[trigger] s[i].name == k;
            if i < s.len() - 1 {
                assert(s.drop_last()[i].name == k);
            }
        }
    }
}

/// With distinct names, the catalog maps each entry's name to that entry.
pub proof fn lemma_entries_value(s: Seq<CommandMetaView>, i: int)
    requires
        names_distinct(s),
        0 <= i < s.len(),
    ensures
        entries_of(s).contains_key(s[i].name),
        entries_of(s)[s[i].name] == s[i],
    decreases s.len(),
{
    if i < s.len() - 1 {
        let t = s.drop_last();
        assert(names_distinct(t)) by {
            assert forall|a: int, b: int| 0 <= a < t.len() && 0 <= b < t.len() && a != b implies #[trigger] t[a].name != #[trigger] t[b].name by {
                assert(t[a] == s[a] && t[b] == s[b]);
            }
        }
        assert(t[i] == s[i]);
        lemma_entries_value(t, i);
        assert(s.last().name != s[i].name);
    }
}

proof fn lemma_entries_update(s: Seq<CommandMetaView>, p: int, m: CommandMetaView)
    requires
        names_distinct(s),
        0 <= p < s.len(),
        s[p].name == m.name,
    ensures
        entries_of(s.update(p, m)) == entries_of(s).insert(m.name, m),
    decreases s.len(),
{
    let t = s.drop_last();
    if p == s.len() - 1 {
        assert(s.update(p, m).drop_last() =~= t);
        assert(entries_of(s.update(p, m)) =~= entries_of(s).insert(m.name, m));
    } else {
        assert(names_distinct(t)) by {
            assert forall|a: int, b: int| 0 <= a < t.len() && 0 <= b < t.len() && a != b implies #[trigger] t[a].name != #[trigger] t[b].name by {
                assert(t[a] == s[a] && t[b] == s[b]);
            }
        }
        assert(t[p] == s[p]);
        lemma_entries_update(t, p, m);
        assert(s.update(p, m).drop_last() =~= t.update(p, m));
        assert(s.last().name != s[p].name);
        assert(entries_of(s.update(p, m)) =~= entries_of(s).insert(m.name, m));
    }
}

proof fn lemma_entries_insert(s: Seq<CommandMetaView>, p: int, m: CommandMetaView)
    requires
        forall|i: int| 0 <= i < s.len() ==> #[trigger] s[i].name != m.name,
        0 <= p <= s.len(),
    ensures
        entries_of(s.insert(p, m)) == entries_of(s).insert(m.name, m),
    decreases s.len(),
{
    if p == s.len() {
        assert(s.insert(p, m).drop_last() =~= s);
    } else {
        let t = s.drop_last();
        assert forall|i: int| 0 <= i < t.len() implies #[trigger] t[i].name != m.name by {
            assert(t[i] == s[i]);
        }
        lemma_entries_insert(t, p, m);
        assert(s.insert(p, m).drop_last() =~= t.insert(p, m));
        assert(s.insert(p, m).last() == s.last());
        assert(s.last().name != m.name);
        assert(entries_of(s.insert(p, m)) =~= entries_of(s).insert(m.name, m));
    }
}

/// The live Scepter command catalog. Its entries are kept sorted by name, so no
/// name occurs twice and listing the commands yields them in name order.
#[derive(Debug, PartialEq, Eq)]
pub struct ScepterLorebook {
    commands: Vec<ScepterCommandMeta>,
}

fn copy_text(s: &String) -> (t: String)
    ensures
        t@ == s@,
{
    String::from_str(s.as_str())
}

fn copy_param(p: &ScepterParamMeta) -> (q: ScepterParamMeta)
    ensures
        q@ == p@,
{
    ScepterParamMeta {
        name: copy_text(&p.name),
        description: copy_text(&p.description),
        required: p.required,
        schema: copy_text(&p.schema),
    }
}

fn copy_meta(m: &ScepterCommandMeta) -> (c: ScepterCommandMeta)
    ensures
        c@ == m@,
{
    let mut params: Vec<ScepterParamMeta> = Vec::new();
    for i in 0..m.params.len()
        invariant
            params@.len() == i,
            forall|j: int| 0 <= j < i ==> #[trigger] params@[j]@ == m.params@[j]@,
    {
        params.push(copy_param(&m.params[i]));
    }
    let mut capabilities: Vec<ScepterCapability> = Vec::new();
    for i in 0..m.capabilities.len()
        invariant
            capabilities@ == m.capabilities@.take(i as int),
    {
        capabilities.push(m.capabilities[i]);
        assert(m.capabilities@.take(i + 1) =~= m.capabilities@.take(i as int).push(m.capabilities@[i as int]));
    }
    let mut examples: Vec<String> = Vec::new();
    for i in 0..m.examples.len()
        invariant
            examples@.len() == i,
            forall|j: int| 0 <= j < i ==> #[trigger] examples@[j]@ == m.examples@[j]@,
    {
        examples.push(copy_text(&m.examples[i]));
    }
    assert(m.capabilities@.take(m.capabilities.len() as int) =~= m.capabilities@);
    let c = ScepterCommandMeta {
        name: copy_text(&m.name),
        description: copy_text(&m.description),
        params,
        previewable: m.previewable,
        undoable: m.undoable,
        capabilities,
        examples,
    };
    assert(c@ =~= m@);
    c
}

impl Clone for ScepterLorebook {
    /// A copy with the same entries in the same order.
    fn clone(&self) -> (c: Self)
        ensures
            c.metas() == self.metas(),
    {
        proof {
            use_type_invariant(self);
        }
        let mut v: Vec<ScepterCommandMeta> = Vec::new();
        for i in 0..self.commands.len()
            invariant
                v@.len() == i,
                i <= self.commands@.len(),
                forall|j: int| 0 <= j < i ==> #[trigger] v@[j]@ == self.commands@[j]@,
        {
            v.push(copy_meta(&self.commands[i]));
        }
        assert(meta_views(v@) =~= meta_views(self.commands@));
        ScepterLorebook { commands: v }
    }
}

impl View for ScepterLorebook {
    type V = Map<Seq<char>, CommandMetaView>;

    /// The catalog: each command name mapped to its help.
    open spec fn view(&self) -> Map<Seq<char>, CommandMetaView> {
        entries_of(self.metas())
    }
}

impl Default for ScepterLorebook {
    /// The empty catalog.
    fn default() -> (l: Self)
        ensures
            l.metas().len() == 0,
            l@ == Map::<Seq<char>, CommandMetaView>::empty(),
    {
        let v: Vec<ScepterCommandMeta> = Vec::new();
        proof {
            assert(meta_views(v@) =~= Seq::empty());
        }
        ScepterLorebook { commands: v }
    }
}

/// Adds (or replaces) the help for `meta.name` in a name-sorted list, keeping it sorted.
fn insert_sorted(v: &mut Vec<ScepterCommandMeta>, meta: ScepterCommandMeta)
    requires
        names_sorted(meta_views(old(v)@)),
    ensures
        names_sorted(meta_views(final(v)@)),
        entries_of(meta_views(final(v)@)) == entries_of(meta_views(old(v)@)).insert(meta@.name, meta@),
{
    let ghost s = meta_views(v@);
    let ghost mv = meta@;
    proof {
        lemma_sorted_distinct(s);
    }
    let n = v.len();
    let mut i: usize = 0;
    while i < n
        invariant
            n == v@.len(),
            i <= n,
            meta_views(v@) == s,
            meta_views(old(v)@) == s,
            mv == meta@,
            names_sorted(s),
            names_distinct(s),
            forall|j: int| 0 <= j < i ==> text_lt(#[trigger] s[j].name, mv.name),
        decreases n - i,
    {
        let o = compare_text(v[i].name.as_str(), meta.name.as_str());
        proof {
            assert(s[i as int] == v@[i as int]@);
        }
        match o {
            TextOrder::Less => {},
            TextOrder::Equal => {
                v.set(i, meta);
                proof {
                    assert(meta_views(v@) =~= s.update(i as int, mv));
                    lemma_entries_update(s, i as int, mv);
                    assert(entries_of(meta_views(v@)) == entries_of(s).insert(mv.name, mv));
                    assert forall|a: int, b: int| 0 <= a < b < meta_views(v@).len() implies text_lt(#[trigger] meta_views(v@)[a].name, #[trigger] meta_views(v@)[b].name) by {
                        assert(meta_views(v@)[a].name == s[a].name);
                        assert(meta_views(v@)[b].name == s[b].name);
                    }
                }
                return;
            },
            TextOrder::Greater => {
                v.insert(i, meta);
                proof {
                    assert(meta_views(v@) =~= s.insert(i as int, mv));
                    assert forall|j: int| 0 <= j < s.len() implies #[trigger] s[j].name != mv.name by {
                        if j < i {
                            lemma_text_lt_irreflexive(mv.name);
                        } else if j > i {
                            lemma_text_lt_transitive(mv.name, s[i as int].name, s[j].name);
                            lemma_text_lt_irreflexive(mv.name);
                        } else {
                            lemma_text_lt_irreflexive(mv.name);
                        }
                    }
                    lemma_entries_insert(s, i as int, mv);
                    assert(entries_of(meta_views(v@)) == entries_of(s).insert(mv.name, mv));
                    let t = meta_views(v@);
                    assert forall|a: int, b: int| 0 <= a < b < t.len() implies text_lt(#[trigger] t[a].name, #[trigger] t[b].name) by {
                        if b < i {
                            assert(t[a] == s[a] && t[b] == s[b]);
                        } else if b == i {
                            assert(t[a] == s[a]);
                        } else if a < i {
                            assert(t[a] == s[a] && t[b] == s[b - 1]);
                            if b - 1 > i {
                                lemma_text_lt_transitive(s[a].name, mv.name, s[i as int].name);
                                lemma_text_lt_transitive(s[a].name, s[i as int].name, s[b - 1].name);
                            } else {
                                lemma_text_lt_transitive(s[a].name, mv.name, s[b - 1].name);
                            }
                        } else if a == i {
                            assert(t[b] == s[b - 1]);
                            if b - 1 > i {
                                lemma_text_lt_transitive(mv.name, s[i as int].name, s[b - 1].name);
                            }
                        } else {
                            assert(t[a] == s[a - 1] && t[b] == s[b - 1]);
                        }
                    }
                }
                return;
            },
        }
        i = i + 1;
    }
    v.push(meta);
    proof {
        assert(meta_views(v@) =~= s.insert(n as int, mv));
        assert forall|j: int| 0 <= j < s.len() implies #[trigger] s[j].name != mv.name by {
            lemma_text_lt_irreflexive(mv.name);
        }
        lemma_entries_insert(s, n as int, mv);
        let t = meta_views(v@);
        assert forall|a: int, b: int| 0 <= a < b < t.len() implies text_lt(#[trigger] t[a].name, #[trigger] t[b].name) by {
            assert(t[a] == s[a]);
            if b < n {
                assert(t[b] == s[b]);
            }
        }
    }
}

impl ScepterLorebook {
    /// The views of the entries, in stored order.
    pub closed spec fn metas(self) -> Seq<CommandMetaView> {
        meta_views(self.commands@)
    }

    /// The entries are strictly sorted by name; every lorebook keeps this.
    #[verifier::type_invariant]
    spec fn sorted_inv(self) -> bool {
        names_sorted(meta_views(self.commands@))
    }

    /// Well-formedness: the entries are strictly sorted by name.
    pub open spec fn wf(self) -> bool {
        names_sorted(self.metas())
    }

    /// The catalog holding the given entries, keyed by name; where two entries
    /// share a name, the later one is kept.
    pub fn from_commands(commands: Vec<ScepterCommandMeta>) -> (l: Self)
        ensures
            l.wf(),
            l@ == entries_of(meta_views(commands@)),
    {
        let mut all = commands;
        let mut v: Vec<ScepterCommandMeta> = Vec::new();
        let ghost cat = meta_views(all@);
        let n = all.len();
        let mut k: usize = 0;
        proof {
            assert(cat.take(0) =~= Seq::empty());
            assert(meta_views(v@) =~= Seq::empty());
            assert(meta_views(all@) =~= cat.skip(0));
        }
        while k < n
            invariant
                n == cat.len(),
                k <= n,
                names_sorted(meta_views(v@)),
                entries_of(meta_views(v@)) == entries_of(cat.take(k as int)),
                meta_views(all@) == cat.skip(k as int),
            decreases n - k,
        {
            proof {
                assert(cat.skip(k as int).len() == n - k);
                assert(meta_views(all@).len() == all@.len());
                assert(meta_views(all@)[0] == all@[0]@);
            }
            let ghost before = all@;
            let meta = all.remove(0);
            proof {
                assert forall|j: int| 0 <= j < all@.len() implies #[trigger] meta_views(all@)[j] == cat.skip(k + 1)[j] by {
                    assert(all@[j] == before[j + 1]);
                    assert(meta_views(before)[j + 1] == before[j + 1]@);
                    assert(cat.skip(k as int)[j + 1] == cat.skip(k + 1)[j]);
                }
                assert(meta@ == cat[k as int]);
                assert(cat.take(k + 1).drop_last() =~= cat.take(k as int));
                assert(meta_views(all@) =~= cat.skip(k + 1));
            }
            insert_sorted(&mut v, meta);
            k = k + 1;
        }
        proof {
            assert(cat.take(n as int) =~= cat);
        }
        ScepterLorebook { commands: v }
    }

    /// The built-in catalog: every entry of [`built_in_commands`], keyed by
    /// name. No entry is lost: it holds exactly as many entries as the catalog.
    pub fn built_in() -> (l: Self)
        ensures
            l.wf(),
            l@ == entries_of(built_in_catalog()),
            l.metas().len() == built_in_catalog().len(),
    {
        let l = Self::from_commands(built_in_commands());
        proof {
            lemma_built_in_keeps_every_entry();
            lemma_sorted_distinct(l.metas());
            lemma_entries_len(l.metas());
        }
        l
    }

    /// The names of all commands, in name order.
    pub fn list_commands(&self) -> (names: Vec<&str>)
        ensures
            names@.len() == self.metas().len(),
            forall|i: int| 0 <= i < names@.len() ==> #[trigger] names@[i]@ == self.metas()[i].name,
            forall|i: int, j: int| 0 <= i < j < names@.len() ==> text_lt(#[trigger] names@[i]@, #[trigger] names@[j]@),
    {
        proof {
            use_type_invariant(self);
        }
        let mut names: Vec<&str> = Vec::new();
        let n = self.commands.len();
        for i in 0..n
            invariant
                n == self.commands@.len(),
                names@.len() == i,
                forall|j: int| 0 <= j < i ==> #[trigger] names@[j]@ == self.metas()[j].name,
        {
            names.push(self.commands[i].name.as_str());
        }
        assert(names_sorted(self.metas()));
        names
    }

    /// The help for the command named `name`, if the catalog has one.
    pub fn describe_command(&self, name: &str) -> (m: Option<&ScepterCommandMeta>)
        ensures
            m is Some <==> self@.contains_key(name@),
            m matches Some(meta) ==> meta@ == self@[name@],
    {
        proof {
            use_type_invariant(self);
            lemma_entries_keys(self.metas(), name@);
        }
        let n = self.commands.len();
        for i in 0..n
            invariant
                n == self.commands@.len(),
                self.wf(),
                forall|j: int| 0 <= j < i ==> #[trigger] self.metas()[j].name != name@,
        {
            let o = compare_text(self.commands[i].name.as_str(), name);
            if o == TextOrder::Equal {
                proof {
                    assert(self.metas()[i as int] == self.commands@[i as int]@);
                    assert(self.metas()[i as int].name == name@);
                    lemma_entries_keys(self.metas(), name@);
                    lemma_sorted_distinct(self.metas());
                    lemma_entries_value(self.metas(), i as int);
                }
                return Some(&self.commands[i]);
            }
        }
        None
    }
}


/// In a well-formed lorebook, listing and describing agree: every listed name
/// is described by its own entry, and every described name is listed.
pub proof fn lemma_listed_names_are_described(l: ScepterLorebook)
    requires
        l.wf(),
    ensures
        forall|i: int| 0 <= i < l.metas().len() ==> #[trigger] l@.contains_key(l.metas()[i].name)
            && l@[l.metas()[i].name] == l.metas()[i],
        forall|k: Seq<char>| #[trigger] l@.contains_key(k) ==> exists|i: int| 0 <= i < l.metas().len() && #[trigger] l.metas()[i].name == k,
{
    lemma_sorted_distinct(l.metas());
    assert forall|i: int| 0 <= i < l.metas().len() implies #[trigger] l@.contains_key(l.metas()[i].name)
        && l@[l.metas()[i].name] == l.metas()[i] by {
        lemma_entries_value(l.metas(), i);
    }
    assert forall|k: Seq<char>| #[trigger] l@.contains_key(k) implies exists|i: int| 0 <= i < l.metas().len() && #[trigger] l.metas()[i].name == k by {
        lemma_entries_keys(l.metas(), k);
    }
}

// ---------------------------------------------------------------------------
// The built-in catalog
// ---------------------------------------------------------------------------

/// The help for `scepter.help`.
pub open spec fn entry_scepter_help() -> CommandMetaView {
    CommandMetaView {
        name: "scepter.help"@,
        description: "Return high-level help for Eldiron Scepter and its Lorebook."@,
        params: Seq::empty(),
        previewable: false,
        undoable: false,
        capabilities: seq![ScepterCapability::ProjectRead],
        examples: Seq::empty(),
    }
}

/// The help for `scepter.list_commands`.
pub open spec fn entry_scepter_list_commands() -> CommandMetaView {
    CommandMetaView {
        name: "scepter.list_commands"@,
        description: "List all commands currently exposed by the Scepter Lorebook."@,
        params: Seq::empty(),
        previewable: false,
        undoable: false,
        capabilities: seq![ScepterCapability::ProjectRead],
        examples: Seq::empty(),
    }
}

/// The help for `scepter.describe_command`.
pub open spec fn entry_scepter_describe_command() -> CommandMetaView {
    CommandMetaView {
        name: "scepter.describe_command"@,
        description: "Describe one command, including parameters, examples, and capabilities."@,
        params: seq![
            ParamMetaView { name: "name"@, description: "Stable command name such as region.paint_rect."@, required: true, schema: "string"@ },
        ],
        previewable: false,
        undoable: false,
        capabilities: seq![ScepterCapability::ProjectRead],
        examples: Seq::empty(),
    }
}

/// The help for `project.describe`.
pub open spec fn entry_project_describe() -> CommandMetaView {
    CommandMetaView {
        name: "project.describe"@,
        description: "Describe the open Eldiron project."@,
        params: Seq::empty(),
        previewable: false,
        undoable: false,
        capabilities: seq![ScepterCapability::ProjectRead],
        examples: Seq::empty(),
    }
}

/// The help for `project.undo`.
pub open spec fn entry_project_undo() -> CommandMetaView {
    CommandMetaView {
        name: "project.undo"@,
        description: "Undo the last undoable Creator change."@,
        params: Seq::empty(),
        previewable: false,
        undoable: true,
        capabilities: seq![ScepterCapability::Undo, ScepterCapability::ProjectWrite],
        examples: Seq::empty(),
    }
}

/// The help for `project.redo`.
pub open spec fn entry_project_redo() -> CommandMetaView {
    CommandMetaView {
        name: "project.redo"@,
        description: "Redo the next redoable Creator change."@,
        params: Seq::empty(),
        previewable: false,
        undoable: true,
        capabilities: seq![ScepterCapability::Undo, ScepterCapability::ProjectWrite],
        examples: Seq::empty(),
    }
}

/// The help for `region.list`.
pub open spec fn entry_region_list() -> CommandMetaView {
    CommandMetaView {
        name: "region.list"@,
        description: "List regions in the open project."@,
        params: Seq::empty(),
        previewable: false,
        undoable: false,
        capabilities: seq![ScepterCapability::RegionRead],
        examples: Seq::empty(),
    }
}

/// The help for `region.snapshot`.
pub open spec fn entry_region_snapshot() -> CommandMetaView {
    CommandMetaView {
        name: "region.snapshot"@,
        description: "Read a normalized 2D authoring snapshot for a region, including sectors, linedefs, vertices, material sources, and resolved tile metadata."@,
        params: seq![
            ParamMetaView { name: "region"@, description: "Optional region id or name. Defaults to Creator's current region."@, required: false, schema: "RegionRef"@ },
            ParamMetaView { name: "include_tiles"@, description: "Include a project tile lookup table in the response."@, required: false, schema: "boolean"@ },
        ],
        previewable: false,
        undoable: false,
        capabilities: seq![ScepterCapability::RegionRead, ScepterCapability::TileRead],
        examples: seq!["{\"command\":\"region.snapshot\",\"params\":{\"region\":{\"name\":\"Harbor\"},\"include_tiles\":true}}"@],
    }
}

/// The help for `region.summary`.
pub open spec fn entry_region_summary() -> CommandMetaView {
    CommandMetaView {
        name: "region.summary"@,
        description: "Read a compact AI-oriented 2D map understanding summary with bounds, landmarks, source usage, blocking/walkable roles, entities, items, and a coarse visual layout."@,
        params: seq![
            ParamMetaView { name: "region"@, description: "Optional region id or name. Defaults to Creator's current region."@, required: false, schema: "RegionRef"@ },
            ParamMetaView { name: "include_ascii"@, description: "Include a coarse ASCII overview of tile roles and placed actors/items."@, required: false, schema: "boolean"@ },
        ],
        previewable: false,
        undoable: false,
        capabilities: seq![ScepterCapability::RegionRead, ScepterCapability::TileRead],
        examples: seq!["{\"command\":\"region.summary\",\"params\":{\"region\":{\"name\":\"Dungeon\"},\"include_ascii\":true}}"@],
    }
}

/// The help for `region.render_preview`.
pub open spec fn entry_region_render_preview() -> CommandMetaView {
    CommandMetaView {
        name: "region.render_preview"@,
        description: "Render a preview image for a region or region bounds."@,
        params: seq![
            ParamMetaView { name: "region"@, description: "Region id or name."@, required: true, schema: "RegionRef"@ },
            ParamMetaView { name: "bounds"@, description: "Optional x, y, width, height region bounds."@, required: false, schema: "[integer; 4]"@ },
            ParamMetaView { name: "zoom"@, description: "Optional integer preview zoom."@, required: false, schema: "integer"@ },
        ],
        previewable: true,
        undoable: false,
        capabilities: seq![ScepterCapability::RegionRead, ScepterCapability::Preview],
        examples: seq!["{\"command\":\"region.render_preview\",\"params\":{\"region\":{\"name\":\"Harbor\"},\"bounds\":[-12,-24,20,16],\"zoom\":2}}"@],
    }
}

/// The help for `region.paint_rect`.
pub open spec fn entry_region_paint_rect() -> CommandMetaView {
    CommandMetaView {
        name: "region.paint_rect"@,
        description: "Paint a rectangular area in a 2D region using a tile selector."@,
        params: seq![
            ParamMetaView { name: "region"@, description: "Region id or name."@, required: true, schema: "RegionRef"@ },
            ParamMetaView { name: "tile"@, description: "Tile id, alias, or semantic query."@, required: true, schema: "TileSelector"@ },
            ParamMetaView { name: "rect"@, description: "x, y, width, height."@, required: true, schema: "[integer; 4]"@ },
            ParamMetaView { name: "layer"@, description: "Optional generated layer name."@, required: false, schema: "string"@ },
            ParamMetaView { name: "select"@, description: "Select painted sectors in Creator after applying. Defaults to false."@, required: false, schema: "boolean"@ },
            ParamMetaView { name: "replace_existing"@, description: "Clear existing drawable tile sectors overlapping target cells before painting. Defaults to true."@, required: false, schema: "boolean"@ },
        ],
        previewable: true,
        undoable: true,
        capabilities: seq![ScepterCapability::RegionWrite, ScepterCapability::TileRead],
        examples: seq!["{\"command\":\"region.paint_rect\",\"params\":{\"region\":{\"name\":\"Harbor\"},\"tile\":{\"alias\":\"stone_floor_dark\"},\"rect\":[4,4,12,8]}}"@],
    }
}

/// The help for `region.paint_outline`.
pub open spec fn entry_region_paint_outline() -> CommandMetaView {
    CommandMetaView {
        name: "region.paint_outline"@,
        description: "Paint the outline of a rectangular area in a 2D region."@,
        params: Seq::empty(),
        previewable: true,
        undoable: true,
        capabilities: seq![ScepterCapability::RegionWrite, ScepterCapability::TileRead],
        examples: Seq::empty(),
    }
}

/// The help for `region.paint_cells`.
pub open spec fn entry_region_paint_cells() -> CommandMetaView {
    CommandMetaView {
        name: "region.paint_cells"@,
        description: "Paint explicit 2D grid cells in a region, replacing existing cells by default."@,
        params: seq![
            ParamMetaView { name: "region"@, description: "Region id or name."@, required: true, schema: "RegionRef"@ },
            ParamMetaView { name: "tile"@, description: "Tile id, alias, or semantic query."@, required: true, schema: "TileSelector"@ },
            ParamMetaView { name: "cells"@, description: "Array of [x, y] grid cells."@, required: true, schema: "[[integer; 2]]"@ },
            ParamMetaView { name: "layer"@, description: "Optional generated layer name."@, required: false, schema: "string"@ },
            ParamMetaView { name: "select"@, description: "Select painted sectors in Creator after applying. Defaults to false."@, required: false, schema: "boolean"@ },
            ParamMetaView { name: "replace_existing"@, description: "Clear existing drawable tile sectors overlapping target cells before painting. Defaults to true."@, required: false, schema: "boolean"@ },
        ],
        previewable: true,
        undoable: true,
        capabilities: seq![ScepterCapability::RegionWrite, ScepterCapability::TileRead],
        examples: seq!["{\"command\":\"region.paint_cells\",\"params\":{\"region\":{\"name\":\"Harbor\"},\"tile\":{\"role\":\"Road\"},\"cells\":[[-3,-14],[-3,-13],[-3,-12]],\"replace_existing\":true}}"@],
    }
}

/// The help for `region.create_sector`.
pub open spec fn entry_region_create_sector() -> CommandMetaView {
    CommandMetaView {
        name: "region.create_sector"@,
        description: "Create a named gameplay sector from a polygon."@,
        params: Seq::empty(),
        previewable: true,
        undoable: true,
        capabilities: seq![ScepterCapability::RegionWrite],
        examples: Seq::empty(),
    }
}

/// The help for `region.place_item`.
pub open spec fn entry_region_place_item() -> CommandMetaView {
    CommandMetaView {
        name: "region.place_item"@,
        description: "Place a region-local item instance from an item template."@,
        params: Seq::empty(),
        previewable: true,
        undoable: true,
        capabilities: seq![ScepterCapability::RegionWrite, ScepterCapability::ProjectRead],
        examples: Seq::empty(),
    }
}

/// The help for `region.place_character`.
pub open spec fn entry_region_place_character() -> CommandMetaView {
    CommandMetaView {
        name: "region.place_character"@,
        description: "Place a region-local character instance from a character template."@,
        params: Seq::empty(),
        previewable: true,
        undoable: true,
        capabilities: seq![ScepterCapability::RegionWrite, ScepterCapability::ProjectRead],
        examples: Seq::empty(),
    }
}

/// The help for `tile.list`.
pub open spec fn entry_tile_list() -> CommandMetaView {
    CommandMetaView {
        name: "tile.list"@,
        description: "List tiles by role, style, kind, or metadata."@,
        params: Seq::empty(),
        previewable: false,
        undoable: false,
        capabilities: seq![ScepterCapability::TileRead],
        examples: Seq::empty(),
    }
}

/// The help for `tile.contact_sheet`.
pub open spec fn entry_tile_contact_sheet() -> CommandMetaView {
    CommandMetaView {
        name: "tile.contact_sheet"@,
        description: "Render a contact sheet for visual tile selection."@,
        params: Seq::empty(),
        previewable: true,
        undoable: false,
        capabilities: seq![ScepterCapability::TileRead, ScepterCapability::Preview],
        examples: Seq::empty(),
    }
}

/// The help for `tile.create_from_rgba`.
pub open spec fn entry_tile_create_from_rgba() -> CommandMetaView {
    CommandMetaView {
        name: "tile.create_from_rgba"@,
        description: "Create a tile from RGBA8 pixel data and optional metadata."@,
        params: Seq::empty(),
        previewable: true,
        undoable: true,
        capabilities: seq![ScepterCapability::TileWrite],
        examples: Seq::empty(),
    }
}

/// The help for `tile.set_meta`.
pub open spec fn entry_tile_set_meta() -> CommandMetaView {
    CommandMetaView {
        name: "tile.set_meta"@,
        description: "Update tile metadata such as alias, role, blocking, and procedural tags."@,
        params: seq![
            ParamMetaView { name: "tile"@, description: "Tile id, alias, or semantic query."@, required: true, schema: "TileSelector"@ },
            ParamMetaView { name: "alias"@, description: "Optional replacement alias."@, required: false, schema: "string"@ },
            ParamMetaView { name: "role"@, description: "Optional Creator tile role."@, required: false, schema: "string"@ },
            ParamMetaView { name: "procedural_kind"@, description: "Optional procedural kind such as floor, wall, door, tree, or prop."@, required: false, schema: "string"@ },
            ParamMetaView { name: "procedural_style"@, description: "Optional procedural style such as stone, forest, crypt, or town."@, required: false, schema: "string"@ },
            ParamMetaView { name: "blocking"@, description: "Optional 2D collision flag."@, required: false, schema: "boolean"@ },
        ],
        previewable: true,
        undoable: true,
        capabilities: seq![ScepterCapability::TileRead, ScepterCapability::TileWrite],
        examples: seq!["{\"command\":\"tile.set_meta\",\"params\":{\"tile\":{\"alias\":\"stone_floor_02\"},\"role\":\"Dungeon\",\"procedural_kind\":\"floor\",\"procedural_style\":\"crypt\",\"blocking\":false}}"@],
    }
}

/// The help for `tile_group.create`.
pub open spec fn entry_tile_group_create() -> CommandMetaView {
    CommandMetaView {
        name: "tile_group.create"@,
        description: "Create a multi-tile group from existing tiles and optional tags."@,
        params: seq![
            ParamMetaView { name: "name"@, description: "Group name shown in Creator."@, required: true, schema: "string"@ },
            ParamMetaView { name: "size"@, description: "Group width and height in cells."@, required: true, schema: "[integer; 2]"@ },
            ParamMetaView { name: "members"@, description: "Tiles and their x, y positions within the group."@, required: false, schema: "TileGroupMember[]"@ },
            ParamMetaView { name: "tags"@, description: "Optional searchable group tags."@, required: false, schema: "string[]"@ },
        ],
        previewable: true,
        undoable: true,
        capabilities: seq![ScepterCapability::TileRead, ScepterCapability::TileWrite],
        examples: Seq::empty(),
    }
}

/// The help for `tileset.list`.
pub open spec fn entry_tileset_list() -> CommandMetaView {
    CommandMetaView {
        name: "tileset.list"@,
        description: "List tilesets available to Creator."@,
        params: Seq::empty(),
        previewable: false,
        undoable: false,
        capabilities: seq![ScepterCapability::TileRead],
        examples: Seq::empty(),
    }
}

/// The help for `tileset.inspect`.
pub open spec fn entry_tileset_inspect() -> CommandMetaView {
    CommandMetaView {
        name: "tileset.inspect"@,
        description: "Inspect a tileset image, its grid metadata, and imported tile coverage."@,
        params: seq![
            ParamMetaView { name: "tileset"@, description: "Optional tileset id, filename, or display name."@, required: false, schema: "string"@ },
        ],
        previewable: true,
        undoable: false,
        capabilities: seq![ScepterCapability::TileRead, ScepterCapability::Preview],
        examples: Seq::empty(),
    }
}

/// The help for `tileset.grid_detect`.
pub open spec fn entry_tileset_grid_detect() -> CommandMetaView {
    CommandMetaView {
        name: "tileset.grid_detect"@,
        description: "Detect or suggest a tileset grid for cell-based import."@,
        params: seq![
            ParamMetaView { name: "tileset"@, description: "Tileset id, filename, or display name."@, required: true, schema: "string"@ },
        ],
        previewable: true,
        undoable: false,
        capabilities: seq![ScepterCapability::TileRead, ScepterCapability::Preview],
        examples: Seq::empty(),
    }
}

/// The help for `tileset.list_unimported`.
pub open spec fn entry_tileset_list_unimported() -> CommandMetaView {
    CommandMetaView {
        name: "tileset.list_unimported"@,
        description: "List tileset cells or ranges that have not yet been imported into the tile system."@,
        params: seq![
            ParamMetaView { name: "tileset"@, description: "Tileset id, filename, or display name."@, required: true, schema: "string"@ },
        ],
        previewable: false,
        undoable: false,
        capabilities: seq![ScepterCapability::TileRead],
        examples: Seq::empty(),
    }
}

/// The help for `tileset.import_tile`.
pub open spec fn entry_tileset_import_tile() -> CommandMetaView {
    CommandMetaView {
        name: "tileset.import_tile"@,
        description: "Import one tileset cell as a tile with optional metadata."@,
        params: seq![
            ParamMetaView { name: "tileset"@, description: "Tileset id, filename, or display name."@, required: true, schema: "string"@ },
            ParamMetaView { name: "cell"@, description: "Cell x and y in the tileset grid."@, required: true, schema: "[integer; 2]"@ },
            ParamMetaView { name: "meta"@, description: "Optional tile metadata."@, required: false, schema: "TilesetTileMeta"@ },
        ],
        previewable: true,
        undoable: true,
        capabilities: seq![ScepterCapability::TileRead, ScepterCapability::TileWrite],
        examples: Seq::empty(),
    }
}

/// The help for `tileset.import_anim`.
pub open spec fn entry_tileset_import_anim() -> CommandMetaView {
    CommandMetaView {
        name: "tileset.import_anim"@,
        description: "Import multiple tileset cells as one animated tile."@,
        params: seq![
            ParamMetaView { name: "tileset"@, description: "Tileset id, filename, or display name."@, required: true, schema: "string"@ },
            ParamMetaView { name: "cells"@, description: "Ordered animation cells."@, required: true, schema: "[integer; 2][]"@ },
            ParamMetaView { name: "meta"@, description: "Optional tile metadata."@, required: false, schema: "TilesetTileMeta"@ },
        ],
        previewable: true,
        undoable: true,
        capabilities: seq![ScepterCapability::TileRead, ScepterCapability::TileWrite],
        examples: Seq::empty(),
    }
}

/// The help for `tileset.import_multi`.
pub open spec fn entry_tileset_import_multi() -> CommandMetaView {
    CommandMetaView {
        name: "tileset.import_multi"@,
        description: "Import a rectangular tileset range as a multi-tile group."@,
        params: seq![
            ParamMetaView { name: "tileset"@, description: "Tileset id, filename, or display name."@, required: true, schema: "string"@ },
            ParamMetaView { name: "rect"@, description: "x, y, width, height in tileset cells."@, required: true, schema: "[integer; 4]"@ },
            ParamMetaView { name: "name"@, description: "Created group name."@, required: true, schema: "string"@ },
            ParamMetaView { name: "tags"@, description: "Optional searchable group tags."@, required: false, schema: "string[]"@ },
        ],
        previewable: true,
        undoable: true,
        capabilities: seq![ScepterCapability::TileRead, ScepterCapability::TileWrite],
        examples: Seq::empty(),
    }
}

/// The help for `tileset.import_batch`.
pub open spec fn entry_tileset_import_batch() -> CommandMetaView {
    CommandMetaView {
        name: "tileset.import_batch"@,
        description: "Import a planned batch of single tiles, animations, and multi-tile groups from one tileset."@,
        params: seq![
            ParamMetaView { name: "tileset"@, description: "Tileset id, filename, or display name."@, required: true, schema: "string"@ },
            ParamMetaView { name: "grid_size"@, description: "Optional cell width and height override."@, required: false, schema: "[integer; 2]"@ },
            ParamMetaView { name: "imports"@, description: "Tile, animation, and multi import specs."@, required: true, schema: "TilesetImportSpec[]"@ },
        ],
        previewable: true,
        undoable: true,
        capabilities: seq![ScepterCapability::TileRead, ScepterCapability::TileWrite],
        examples: seq!["{\"command\":\"tileset.import_batch\",\"params\":{\"tileset\":\"dungeon_a.png\",\"grid_size\":[32,32],\"imports\":[{\"kind\":\"tile\",\"cell\":[4,2],\"meta\":{\"alias\":\"crypt_floor_cracked\",\"role\":\"Dungeon\",\"procedural_kind\":\"floor\",\"procedural_style\":\"crypt\"}},{\"kind\":\"multi\",\"rect\":[8,2,2,2],\"name\":\"crypt_pillar_cluster\",\"tags\":[\"crypt\",\"pillar\"]}]}}"@],
    }
}

/// The help for `script.get`.
pub open spec fn entry_script_get() -> CommandMetaView {
    CommandMetaView {
        name: "script.get"@,
        description: "Read an Eldrin script from a target."@,
        params: seq![
            ParamMetaView { name: "target"@, description: "World, region, character, or item target. Character/item targets use project templates unless a region is supplied."@, required: true, schema: "ScriptTarget"@ },
        ],
        previewable: false,
        undoable: false,
        capabilities: seq![ScepterCapability::ScriptRead],
        examples: seq!["{\"command\":\"script.get\",\"params\":{\"target\":{\"kind\":\"character\",\"region\":{\"name\":\"Harbor\"},\"name\":\"Old Smuggler\"}}}"@],
    }
}

/// The help for `script.patch`.
pub open spec fn entry_script_patch() -> CommandMetaView {
    CommandMetaView {
        name: "script.patch"@,
        description: "Apply a patch to an Eldrin script, optionally validating before apply."@,
        params: seq![
            ParamMetaView { name: "target"@, description: "World, region, character, or item target."@, required: true, schema: "ScriptTarget"@ },
            ParamMetaView { name: "patch"@, description: "Replacement Eldrin source for this first executable version."@, required: true, schema: "string"@ },
            ParamMetaView { name: "validate"@, description: "Parse/validate before applying when validation support exists."@, required: false, schema: "boolean"@ },
        ],
        previewable: true,
        undoable: true,
        capabilities: seq![ScepterCapability::ScriptRead, ScepterCapability::ScriptWrite],
        examples: seq!["{\"command\":\"script.patch\",\"params\":{\"target\":{\"kind\":\"item\",\"name\":\"Sign\"},\"patch\":\"on examine {\\n    say(\\\"Weathered letters mark the path.\\\")\\n}\",\"validate\":true}}"@],
    }
}

/// The help for `script.validate`.
pub open spec fn entry_script_validate() -> CommandMetaView {
    CommandMetaView {
        name: "script.validate"@,
        description: "Validate Eldrin source for a target without applying it."@,
        params: Seq::empty(),
        previewable: true,
        undoable: false,
        capabilities: seq![ScepterCapability::ScriptRead, ScepterCapability::Preview],
        examples: Seq::empty(),
    }
}

/// The help for `attributes.get`.
pub open spec fn entry_attributes_get() -> CommandMetaView {
    CommandMetaView {
        name: "attributes.get"@,
        description: "Read TOML attributes from a character or item template/instance."@,
        params: seq![
            ParamMetaView { name: "target"@, description: "Character or item target. Add region to select a placed instance."@, required: true, schema: "ScriptTarget"@ },
        ],
        previewable: false,
        undoable: false,
        capabilities: seq![ScepterCapability::AttributeRead],
        examples: seq!["{\"command\":\"attributes.get\",\"params\":{\"target\":{\"kind\":\"character\",\"name\":\"Orc\"}}}"@],
    }
}

/// The help for `attributes.patch`.
pub open spec fn entry_attributes_patch() -> CommandMetaView {
    CommandMetaView {
        name: "attributes.patch"@,
        description: "Patch the [attributes] table of a character or item template/instance."@,
        params: seq![
            ParamMetaView { name: "target"@, description: "Character or item target. Add region to select a placed instance."@, required: true, schema: "ScriptTarget"@ },
            ParamMetaView { name: "values"@, description: "Attribute key/value pairs to set under [attributes]. JSON strings, numbers, booleans, arrays, and objects are converted to TOML."@, required: false, schema: "object"@ },
            ParamMetaView { name: "remove"@, description: "Attribute keys to remove from [attributes]."@, required: false, schema: "string[]"@ },
            ParamMetaView { name: "validate"@, description: "Validate resulting TOML before applying."@, required: false, schema: "boolean"@ },
        ],
        previewable: true,
        undoable: true,
        capabilities: seq![ScepterCapability::AttributeRead, ScepterCapability::AttributeWrite],
        examples: seq!["{\"command\":\"attributes.patch\",\"params\":{\"target\":{\"kind\":\"character\",\"region\":{\"name\":\"Harbor\"},\"name\":\"Harbor Lookout\"},\"values\":{\"faction\":\"dock_watch\",\"visible\":true,\"radius\":0.5},\"remove\":[\"temporary_note\"],\"validate\":true}}"@],
    }
}

/// The help for `action.list`.
pub open spec fn entry_action_list() -> CommandMetaView {
    CommandMetaView {
        name: "action.list"@,
        description: "List editor actions that can be run through Scepter, with their ids and parameters."@,
        params: Seq::empty(),
        previewable: false,
        undoable: false,
        capabilities: seq![ScepterCapability::ProjectRead],
        examples: Seq::empty(),
    }
}

/// The help for `action.run`.
pub open spec fn entry_action_run() -> CommandMetaView {
    CommandMetaView {
        name: "action.run"@,
        description: "Run one editor action by id, with its parameters given as TOML."@,
        params: seq![
            ParamMetaView { name: "id"@, description: "Stable editor action id such as face.extrude."@, required: true, schema: "string"@ },
            ParamMetaView { name: "parameters_toml"@, description: "Action parameters as TOML text."@, required: false, schema: "string"@ },
        ],
        previewable: false,
        undoable: true,
        capabilities: seq![ScepterCapability::ProjectWrite],
        examples: seq!["{\"command\":\"action.run\",\"params\":{\"id\":\"face.extrude\",\"parameters_toml\":\"amount = 2\"}}"@],
    }
}

/// The help for `action.run_script`.
pub open spec fn entry_action_run_script() -> CommandMetaView {
    CommandMetaView {
        name: "action.run_script"@,
        description: "Run an Eldrin script that calls editor actions."@,
        params: seq![
            ParamMetaView { name: "source"@, description: "Eldrin source calling editor_action(id, parameters_toml)."@, required: true, schema: "string"@ },
        ],
        previewable: false,
        undoable: true,
        capabilities: seq![ScepterCapability::ProjectWrite, ScepterCapability::ScriptRead],
        examples: seq!["{\"command\":\"action.run_script\",\"params\":{\"source\":\"editor_action(\\\"camera.isometric\\\", \\\"\\\");\"}}"@],
    }
}

/// The help for `tool.list`.
pub open spec fn entry_tool_list() -> CommandMetaView {
    CommandMetaView {
        name: "tool.list"@,
        description: "List the editor tools that can be selected."@,
        params: Seq::empty(),
        previewable: false,
        undoable: false,
        capabilities: seq![ScepterCapability::ProjectRead],
        examples: Seq::empty(),
    }
}

/// The help for `tool.select`.
pub open spec fn entry_tool_select() -> CommandMetaView {
    CommandMetaView {
        name: "tool.select"@,
        description: "Select an editor tool by id."@,
        params: seq![
            ParamMetaView { name: "id"@, description: "Stable tool id such as tool.geometry."@, required: true, schema: "string"@ },
        ],
        previewable: false,
        undoable: false,
        capabilities: seq![ScepterCapability::ProjectRead],
        examples: seq!["{\"command\":\"tool.select\",\"params\":{\"id\":\"tool.geometry\"}}"@],
    }
}

/// The help for `geometry.create_room`.
pub open spec fn entry_geometry_create_room() -> CommandMetaView {
    CommandMetaView {
        name: "geometry.create_room"@,
        description: "Create a high-level 3D room primitive with optional floor and wall tiles."@,
        params: Seq::empty(),
        previewable: true,
        undoable: true,
        capabilities: seq![ScepterCapability::RegionWrite, ScepterCapability::TileRead],
        examples: Seq::empty(),
    }
}

/// The help for `geometry.place_builder_asset`.
pub open spec fn entry_geometry_place_builder_asset() -> CommandMetaView {
    CommandMetaView {
        name: "geometry.place_builder_asset"@,
        description: "Place a reusable builder asset or prop in a 3D region."@,
        params: Seq::empty(),
        previewable: true,
        undoable: true,
        capabilities: seq![ScepterCapability::RegionWrite, ScepterCapability::ProjectRead],
        examples: Seq::empty(),
    }
}

/// The number of commands in the built-in catalog.
pub open spec fn built_in_count() -> nat {
    41
}

/// The `i`-th entry of the built-in catalog.
pub open spec fn catalog_entry(i: int) -> CommandMetaView {
    if i == 0 {
        entry_scepter_help()
    } else if i == 1 {
        entry_scepter_list_commands()
    } else if i == 2 {
        entry_scepter_describe_command()
    } else if i == 3 {
        entry_project_describe()
    } else if i == 4 {
        entry_project_undo()
    } else if i == 5 {
        entry_project_redo()
    } else if i == 6 {
        entry_region_list()
    } else if i == 7 {
        entry_region_snapshot()
    } else if i == 8 {
        entry_region_summary()
    } else if i == 9 {
        entry_region_render_preview()
    } else if i == 10 {
        entry_region_paint_rect()
    } else if i == 11 {
        entry_region_paint_outline()
    } else if i == 12 {
        entry_region_paint_cells()
    } else if i == 13 {
        entry_region_create_sector()
    } else if i == 14 {
        entry_region_place_item()
    } else if i == 15 {
        entry_region_place_character()
    } else if i == 16 {
        entry_tile_list()
    } else if i == 17 {
        entry_tile_contact_sheet()
    } else if i == 18 {
        entry_tile_create_from_rgba()
    } else if i == 19 {
        entry_tile_set_meta()
    } else if i == 20 {
        entry_tile_group_create()
    } else if i == 21 {
        entry_tileset_list()
    } else if i == 22 {
        entry_tileset_inspect()
    } else if i == 23 {
        entry_tileset_grid_detect()
    } else if i == 24 {
        entry_tileset_list_unimported()
    } else if i == 25 {
        entry_tileset_import_tile()
    } else if i == 26 {
        entry_tileset_import_anim()
    } else if i == 27 {
        entry_tileset_import_multi()
    } else if i == 28 {
        entry_tileset_import_batch()
    } else if i == 29 {
        entry_script_get()
    } else if i == 30 {
        entry_script_patch()
    } else if i == 31 {
        entry_script_validate()
    } else if i == 32 {
        entry_attributes_get()
    } else if i == 33 {
        entry_attributes_patch()
    } else if i == 34 {
        entry_action_list()
    } else if i == 35 {
        entry_action_run()
    } else if i == 36 {
        entry_action_run_script()
    } else if i == 37 {
        entry_tool_list()
    } else if i == 38 {
        entry_tool_select()
    } else if i == 39 {
        entry_geometry_create_room()
    } else {
        entry_geometry_place_builder_asset()
    }
}

/// The built-in catalog, in declaration order.
pub open spec fn built_in_catalog() -> Seq<CommandMetaView> {
    Seq::new(built_in_count(), |i: int| catalog_entry(i))
}

fn meta_scepter_help() -> (m: ScepterCommandMeta)
    ensures
        m@ == entry_scepter_help(),
{
    let m = ScepterCommandMeta::new(
        "scepter.help",
        "Return high-level help for Eldiron Scepter and its Lorebook.",
    )
    .capabilities(vec![ProjectRead]);
    proof {
        assert(m@ =~= entry_scepter_help());
    }
    m
}

fn meta_scepter_list_commands() -> (m: ScepterCommandMeta)
    ensures
        m@ == entry_scepter_list_commands(),
{
    let m = ScepterCommandMeta::new(
        "scepter.list_commands",
        "List all commands currently exposed by the Scepter Lorebook.",
    )
    .capabilities(vec![ProjectRead]);
    proof {
        assert(m@ =~= entry_scepter_list_commands());
    }
    m
}

fn meta_scepter_describe_command() -> (m: ScepterCommandMeta)
    ensures
        m@ == entry_scepter_describe_command(),
{
    let m = ScepterCommandMeta::new(
        "scepter.describe_command",
        "Describe one command, including parameters, examples, and capabilities.",
    )
    .params(vec![
        ScepterParamMeta::new("name", "Stable command name such as region.paint_rect.", true, "string"),
    ])
    .capabilities(vec![ProjectRead]);
    proof {
        assert(m@ =~= entry_scepter_describe_command());
    }
    m
}

fn meta_project_describe() -> (m: ScepterCommandMeta)
    ensures
        m@ == entry_project_describe(),
{
    let m = ScepterCommandMeta::new(
        "project.describe",
        "Describe the open Eldiron project.",
    )
    .capabilities(vec![ProjectRead]);
    proof {
        assert(m@ =~= entry_project_describe());
    }
    m
}

fn meta_project_undo() -> (m: ScepterCommandMeta)
    ensures
        m@ == entry_project_undo(),
{
    let m = ScepterCommandMeta::new(
        "project.undo",
        "Undo the last undoable Creator change.",
    )
    .capabilities(vec![Undo, ProjectWrite])
    .undoable();
    proof {
        assert(m@ =~= entry_project_undo());
    }
    m
}

fn meta_project_redo() -> (m: ScepterCommandMeta)
    ensures
        m@ == entry_project_redo(),
{
    let m = ScepterCommandMeta::new(
        "project.redo",
        "Redo the next redoable Creator change.",
    )
    .capabilities(vec![Undo, ProjectWrite])
    .undoable();
    proof {
        assert(m@ =~= entry_project_redo());
    }
    m
}

fn meta_region_list() -> (m: ScepterCommandMeta)
    ensures
        m@ == entry_region_list(),
{
    let m = ScepterCommandMeta::new(
        "region.list",
        "List regions in the open project.",
    )
    .capabilities(vec![RegionRead]);
    proof {
        assert(m@ =~= entry_region_list());
    }
    m
}

fn meta_region_snapshot() -> (m: ScepterCommandMeta)
    ensures
        m@ == entry_region_snapshot(),
{
    let m = ScepterCommandMeta::new(
        "region.snapshot",
        "Read a normalized 2D authoring snapshot for a region, including sectors, linedefs, vertices, material sources, and resolved tile metadata.",
    )
    .params(vec![
        ScepterParamMeta::new("region", "Optional region id or name. Defaults to Creator's current region.", false, "RegionRef"),
        ScepterParamMeta::new("include_tiles", "Include a project tile lookup table in the response.", false, "boolean"),
    ])
    .capabilities(vec![RegionRead, TileRead])
    .examples(vec![String::from_str("{\"command\":\"region.snapshot\",\"params\":{\"region\":{\"name\":\"Harbor\"},\"include_tiles\":true}}")]);
    proof {
        assert(m@ =~= entry_region_snapshot());
    }
    m
}

fn meta_region_summary() -> (m: ScepterCommandMeta)
    ensures
        m@ == entry_region_summary(),
{
    let m = ScepterCommandMeta::new(
        "region.summary",
        "Read a compact AI-oriented 2D map understanding summary with bounds, landmarks, source usage, blocking/walkable roles, entities, items, and a coarse visual layout.",
    )
    .params(vec![
        ScepterParamMeta::new("region", "Optional region id or name. Defaults to Creator's current region.", false, "RegionRef"),
        ScepterParamMeta::new("include_ascii", "Include a coarse ASCII overview of tile roles and placed actors/items.", false, "boolean"),
    ])
    .capabilities(vec![RegionRead, TileRead])
    .examples(vec![String::from_str("{\"command\":\"region.summary\",\"params\":{\"region\":{\"name\":\"Dungeon\"},\"include_ascii\":true}}")]);
    proof {
        assert(m@ =~= entry_region_summary());
    }
    m
}

fn meta_region_render_preview() -> (m: ScepterCommandMeta)
    ensures
        m@ == entry_region_render_preview(),
{
    let m = ScepterCommandMeta::new(
        "region.render_preview",
        "Render a preview image for a region or region bounds.",
    )
    .params(vec![
        ScepterParamMeta::new("region", "Region id or name.", true, "RegionRef"),
        ScepterParamMeta::new("bounds", "Optional x, y, width, height region bounds.", false, "[integer; 4]"),
        ScepterParamMeta::new("zoom", "Optional integer preview zoom.", false, "integer"),
    ])
    .capabilities(vec![RegionRead, Preview])
    .previewable()
    .examples(vec![String::from_str("{\"command\":\"region.render_preview\",\"params\":{\"region\":{\"name\":\"Harbor\"},\"bounds\":[-12,-24,20,16],\"zoom\":2}}")]);
    proof {
        assert(m@ =~= entry_region_render_preview());
    }
    m
}

fn meta_region_paint_rect() -> (m: ScepterCommandMeta)
    ensures
        m@ == entry_region_paint_rect(),
{
    let m = ScepterCommandMeta::new(
        "region.paint_rect",
        "Paint a rectangular area in a 2D region using a tile selector.",
    )
    .params(vec![
        ScepterParamMeta::new("region", "Region id or name.", true, "RegionRef"),
        ScepterParamMeta::new("tile", "Tile id, alias, or semantic query.", true, "TileSelector"),
        ScepterParamMeta::new("rect", "x, y, width, height.", true, "[integer; 4]"),
        ScepterParamMeta::new("layer", "Optional generated layer name.", false, "string"),
        ScepterParamMeta::new("select", "Select painted sectors in Creator after applying. Defaults to false.", false, "boolean"),
        ScepterParamMeta::new("replace_existing", "Clear existing drawable tile sectors overlapping target cells before painting. Defaults to true.", false, "boolean"),
    ])
    .capabilities(vec![RegionWrite, TileRead])
    .previewable()
    .undoable()
    .examples(vec![String::from_str("{\"command\":\"region.paint_rect\",\"params\":{\"region\":{\"name\":\"Harbor\"},\"tile\":{\"alias\":\"stone_floor_dark\"},\"rect\":[4,4,12,8]}}")]);
    proof {
        assert(m@ =~= entry_region_paint_rect());
    }
    m
}

fn meta_region_paint_outline() -> (m: ScepterCommandMeta)
    ensures
        m@ == entry_region_paint_outline(),
{
    let m = ScepterCommandMeta::new(
        "region.paint_outline",
        "Paint the outline of a rectangular area in a 2D region.",
    )
    .capabilities(vec![RegionWrite, TileRead])
    .previewable()
    .undoable();
    proof {
        assert(m@ =~= entry_region_paint_outline());
    }
    m
}

fn meta_region_paint_cells() -> (m: ScepterCommandMeta)
    ensures
        m@ == entry_region_paint_cells(),
{
    let m = ScepterCommandMeta::new(
        "region.paint_cells",
        "Paint explicit 2D grid cells in a region, replacing existing cells by default.",
    )
    .params(vec![
        ScepterParamMeta::new("region", "Region id or name.", true, "RegionRef"),
        ScepterParamMeta::new("tile", "Tile id, alias, or semantic query.", true, "TileSelector"),
        ScepterParamMeta::new("cells", "Array of [x, y] grid cells.", true, "[[integer; 2]]"),
        ScepterParamMeta::new("layer", "Optional generated layer name.", false, "string"),
        ScepterParamMeta::new("select", "Select painted sectors in Creator after applying. Defaults to false.", false, "boolean"),
        ScepterParamMeta::new("replace_existing", "Clear existing drawable tile sectors overlapping target cells before painting. Defaults to true.", false, "boolean"),
    ])
    .capabilities(vec![RegionWrite, TileRead])
    .previewable()
    .undoable()
    .examples(vec![String::from_str("{\"command\":\"region.paint_cells\",\"params\":{\"region\":{\"name\":\"Harbor\"},\"tile\":{\"role\":\"Road\"},\"cells\":[[-3,-14],[-3,-13],[-3,-12]],\"replace_existing\":true}}")]);
    proof {
        assert(m@ =~= entry_region_paint_cells());
    }
    m
}

fn meta_region_create_sector() -> (m: ScepterCommandMeta)
    ensures
        m@ == entry_region_create_sector(),
{
    let m = ScepterCommandMeta::new(
        "region.create_sector",
        "Create a named gameplay sector from a polygon.",
    )
    .capabilities(vec![RegionWrite])
    .previewable()
    .undoable();
    proof {
        assert(m@ =~= entry_region_create_sector());
    }
    m
}

fn meta_region_place_item() -> (m: ScepterCommandMeta)
    ensures
        m@ == entry_region_place_item(),
{
    let m = ScepterCommandMeta::new(
        "region.place_item",
        "Place a region-local item instance from an item template.",
    )
    .capabilities(vec![RegionWrite, ProjectRead])
    .previewable()
    .undoable();
    proof {
        assert(m@ =~= entry_region_place_item());
    }
    m
}

fn meta_region_place_character() -> (m: ScepterCommandMeta)
    ensures
        m@ == entry_region_place_character(),
{
    let m = ScepterCommandMeta::new(
        "region.place_character",
        "Place a region-local character instance from a character template.",
    )
    .capabilities(vec![RegionWrite, ProjectRead])
    .previewable()
    .undoable();
    proof {
        assert(m@ =~= entry_region_place_character());
    }
    m
}

fn meta_tile_list() -> (m: ScepterCommandMeta)
    ensures
        m@ == entry_tile_list(),
{
    let m = ScepterCommandMeta::new(
        "tile.list",
        "List tiles by role, style, kind, or metadata.",
    )
    .capabilities(vec![TileRead]);
    proof {
        assert(m@ =~= entry_tile_list());
    }
    m
}

fn meta_tile_contact_sheet() -> (m: ScepterCommandMeta)
    ensures
        m@ == entry_tile_contact_sheet(),
{
    let m = ScepterCommandMeta::new(
        "tile.contact_sheet",
        "Render a contact sheet for visual tile selection.",
    )
    .capabilities(vec![TileRead, Preview])
    .previewable();
    proof {
        assert(m@ =~= entry_tile_contact_sheet());
    }
    m
}

fn meta_tile_create_from_rgba() -> (m: ScepterCommandMeta)
    ensures
        m@ == entry_tile_create_from_rgba(),
{
    let m = ScepterCommandMeta::new(
        "tile.create_from_rgba",
        "Create a tile from RGBA8 pixel data and optional metadata.",
    )
    .capabilities(vec![TileWrite])
    .previewable()
    .undoable();
    proof {
        assert(m@ =~= entry_tile_create_from_rgba());
    }
    m
}

fn meta_tile_set_meta() -> (m: ScepterCommandMeta)
    ensures
        m@ == entry_tile_set_meta(),
{
    let m = ScepterCommandMeta::new(
        "tile.set_meta",
        "Update tile metadata such as alias, role, blocking, and procedural tags.",
    )
    .params(vec![
        ScepterParamMeta::new("tile", "Tile id, alias, or semantic query.", true, "TileSelector"),
        ScepterParamMeta::new("alias", "Optional replacement alias.", false, "string"),
        ScepterParamMeta::new("role", "Optional Creator tile role.", false, "string"),
        ScepterParamMeta::new("procedural_kind", "Optional procedural kind such as floor, wall, door, tree, or prop.", false, "string"),
        ScepterParamMeta::new("procedural_style", "Optional procedural style such as stone, forest, crypt, or town.", false, "string"),
        ScepterParamMeta::new("blocking", "Optional 2D collision flag.", false, "boolean"),
    ])
    .capabilities(vec![TileRead, TileWrite])
    .previewable()
    .undoable()
    .examples(vec![String::from_str("{\"command\":\"tile.set_meta\",\"params\":{\"tile\":{\"alias\":\"stone_floor_02\"},\"role\":\"Dungeon\",\"procedural_kind\":\"floor\",\"procedural_style\":\"crypt\",\"blocking\":false}}")]);
    proof {
        assert(m@ =~= entry_tile_set_meta());
    }
    m
}

fn meta_tile_group_create() -> (m: ScepterCommandMeta)
    ensures
        m@ == entry_tile_group_create(),
{
    let m = ScepterCommandMeta::new(
        "tile_group.create",
        "Create a multi-tile group from existing tiles and optional tags.",
    )
    .params(vec![
        ScepterParamMeta::new("name", "Group name shown in Creator.", true, "string"),
        ScepterParamMeta::new("size", "Group width and height in cells.", true, "[integer; 2]"),
        ScepterParamMeta::new("members", "Tiles and their x, y positions within the group.", false, "TileGroupMember[]"),
        ScepterParamMeta::new("tags", "Optional searchable group tags.", false, "string[]"),
    ])
    .capabilities(vec![TileRead, TileWrite])
    .previewable()
    .undoable();
    proof {
        assert(m@ =~= entry_tile_group_create());
    }
    m
}

fn meta_tileset_list() -> (m: ScepterCommandMeta)
    ensures
        m@ == entry_tileset_list(),
{
    let m = ScepterCommandMeta::new(
        "tileset.list",
        "List tilesets available to Creator.",
    )
    .capabilities(vec![TileRead]);
    proof {
        assert(m@ =~= entry_tileset_list());
    }
    m
}

fn meta_tileset_inspect() -> (m: ScepterCommandMeta)
    ensures
        m@ == entry_tileset_inspect(),
{
    let m = ScepterCommandMeta::new(
        "tileset.inspect",
        "Inspect a tileset image, its grid metadata, and imported tile coverage.",
    )
    .params(vec![
        ScepterParamMeta::new("tileset", "Optional tileset id, filename, or display name.", false, "string"),
    ])
    .capabilities(vec![TileRead, Preview])
    .previewable();
    proof {
        assert(m@ =~= entry_tileset_inspect());
    }
    m
}

fn meta_tileset_grid_detect() -> (m: ScepterCommandMeta)
    ensures
        m@ == entry_tileset_grid_detect(),
{
    let m = ScepterCommandMeta::new(
        "tileset.grid_detect",
        "Detect or suggest a tileset grid for cell-based import.",
    )
    .params(vec![
        ScepterParamMeta::new("tileset", "Tileset id, filename, or display name.", true, "string"),
    ])
    .capabilities(vec![TileRead, Preview])
    .previewable();
    proof {
        assert(m@ =~= entry_tileset_grid_detect());
    }
    m
}

fn meta_tileset_list_unimported() -> (m: ScepterCommandMeta)
    ensures
        m@ == entry_tileset_list_unimported(),
{
    let m = ScepterCommandMeta::new(
        "tileset.list_unimported",
        "List tileset cells or ranges that have not yet been imported into the tile system.",
    )
    .params(vec![
        ScepterParamMeta::new("tileset", "Tileset id, filename, or display name.", true, "string"),
    ])
    .capabilities(vec![TileRead]);
    proof {
        assert(m@ =~= entry_tileset_list_unimported());
    }
    m
}

fn meta_tileset_import_tile() -> (m: ScepterCommandMeta)
    ensures
        m@ == entry_tileset_import_tile(),
{
    let m = ScepterCommandMeta::new(
        "tileset.import_tile",
        "Import one tileset cell as a tile with optional metadata.",
    )
    .params(vec![
        ScepterParamMeta::new("tileset", "Tileset id, filename, or display name.", true, "string"),
        ScepterParamMeta::new("cell", "Cell x and y in the tileset grid.", true, "[integer; 2]"),
        ScepterParamMeta::new("meta", "Optional tile metadata.", false, "TilesetTileMeta"),
    ])
    .capabilities(vec![TileRead, TileWrite])
    .previewable()
    .undoable();
    proof {
        assert(m@ =~= entry_tileset_import_tile());
    }
    m
}

fn meta_tileset_import_anim() -> (m: ScepterCommandMeta)
    ensures
        m@ == entry_tileset_import_anim(),
{
    let m = ScepterCommandMeta::new(
        "tileset.import_anim",
        "Import multiple tileset cells as one animated tile.",
    )
    .params(vec![
        ScepterParamMeta::new("tileset", "Tileset id, filename, or display name.", true, "string"),
        ScepterParamMeta::new("cells", "Ordered animation cells.", true, "[integer; 2][]"),
        ScepterParamMeta::new("meta", "Optional tile metadata.", false, "TilesetTileMeta"),
    ])
    .capabilities(vec![TileRead, TileWrite])
    .previewable()
    .undoable();
    proof {
        assert(m@ =~= entry_tileset_import_anim());
    }
    m
}

fn meta_tileset_import_multi() -> (m: ScepterCommandMeta)
    ensures
        m@ == entry_tileset_import_multi(),
{
    let m = ScepterCommandMeta::new(
        "tileset.import_multi",
        "Import a rectangular tileset range as a multi-tile group.",
    )
    .params(vec![
        ScepterParamMeta::new("tileset", "Tileset id, filename, or display name.", true, "string"),
        ScepterParamMeta::new("rect", "x, y, width, height in tileset cells.", true, "[integer; 4]"),
        ScepterParamMeta::new("name", "Created group name.", true, "string"),
        ScepterParamMeta::new("tags", "Optional searchable group tags.", false, "string[]"),
    ])
    .capabilities(vec![TileRead, TileWrite])
    .previewable()
    .undoable();
    proof {
        assert(m@ =~= entry_tileset_import_multi());
    }
    m
}

fn meta_tileset_import_batch() -> (m: ScepterCommandMeta)
    ensures
        m@ == entry_tileset_import_batch(),
{
    let m = ScepterCommandMeta::new(
        "tileset.import_batch",
        "Import a planned batch of single tiles, animations, and multi-tile groups from one tileset.",
    )
    .params(vec![
        ScepterParamMeta::new("tileset", "Tileset id, filename, or display name.", true, "string"),
        ScepterParamMeta::new("grid_size", "Optional cell width and height override.", false, "[integer; 2]"),
        ScepterParamMeta::new("imports", "Tile, animation, and multi import specs.", true, "TilesetImportSpec[]"),
    ])
    .capabilities(vec![TileRead, TileWrite])
    .previewable()
    .undoable()
    .examples(vec![String::from_str("{\"command\":\"tileset.import_batch\",\"params\":{\"tileset\":\"dungeon_a.png\",\"grid_size\":[32,32],\"imports\":[{\"kind\":\"tile\",\"cell\":[4,2],\"meta\":{\"alias\":\"crypt_floor_cracked\",\"role\":\"Dungeon\",\"procedural_kind\":\"floor\",\"procedural_style\":\"crypt\"}},{\"kind\":\"multi\",\"rect\":[8,2,2,2],\"name\":\"crypt_pillar_cluster\",\"tags\":[\"crypt\",\"pillar\"]}]}}")]);
    proof {
        assert(m@ =~= entry_tileset_import_batch());
    }
    m
}

fn meta_script_get() -> (m: ScepterCommandMeta)
    ensures
        m@ == entry_script_get(),
{
    let m = ScepterCommandMeta::new(
        "script.get",
        "Read an Eldrin script from a target.",
    )
    .params(vec![
        ScepterParamMeta::new("target", "World, region, character, or item target. Character/item targets use project templates unless a region is supplied.", true, "ScriptTarget"),
    ])
    .capabilities(vec![ScriptRead])
    .examples(vec![String::from_str("{\"command\":\"script.get\",\"params\":{\"target\":{\"kind\":\"character\",\"region\":{\"name\":\"Harbor\"},\"name\":\"Old Smuggler\"}}}")]);
    proof {
        assert(m@ =~= entry_script_get());
    }
    m
}

fn meta_script_patch() -> (m: ScepterCommandMeta)
    ensures
        m@ == entry_script_patch(),
{
    let m = ScepterCommandMeta::new(
        "script.patch",
        "Apply a patch to an Eldrin script, optionally validating before apply.",
    )
    .params(vec![
        ScepterParamMeta::new("target", "World, region, character, or item target.", true, "ScriptTarget"),
        ScepterParamMeta::new("patch", "Replacement Eldrin source for this first executable version.", true, "string"),
        ScepterParamMeta::new("validate", "Parse/validate before applying when validation support exists.", false, "boolean"),
    ])
    .capabilities(vec![ScriptRead, ScriptWrite])
    .previewable()
    .undoable()
    .examples(vec![String::from_str("{\"command\":\"script.patch\",\"params\":{\"target\":{\"kind\":\"item\",\"name\":\"Sign\"},\"patch\":\"on examine {\\n    say(\\\"Weathered letters mark the path.\\\")\\n}\",\"validate\":true}}")]);
    proof {
        assert(m@ =~= entry_script_patch());
    }
    m
}

fn meta_script_validate() -> (m: ScepterCommandMeta)
    ensures
        m@ == entry_script_validate(),
{
    let m = ScepterCommandMeta::new(
        "script.validate",
        "Validate Eldrin source for a target without applying it.",
    )
    .capabilities(vec![ScriptRead, Preview])
    .previewable();
    proof {
        assert(m@ =~= entry_script_validate());
    }
    m
}

fn meta_attributes_get() -> (m: ScepterCommandMeta)
    ensures
        m@ == entry_attributes_get(),
{
    let m = ScepterCommandMeta::new(
        "attributes.get",
        "Read TOML attributes from a character or item template/instance.",
    )
    .params(vec![
        ScepterParamMeta::new("target", "Character or item target. Add region to select a placed instance.", true, "ScriptTarget"),
    ])
    .capabilities(vec![AttributeRead])
    .examples(vec![String::from_str("{\"command\":\"attributes.get\",\"params\":{\"target\":{\"kind\":\"character\",\"name\":\"Orc\"}}}")]);
    proof {
        assert(m@ =~= entry_attributes_get());
    }
    m
}

fn meta_attributes_patch() -> (m: ScepterCommandMeta)
    ensures
        m@ == entry_attributes_patch(),
{
    let m = ScepterCommandMeta::new(
        "attributes.patch",
        "Patch the [attributes] table of a character or item template/instance.",
    )
    .params(vec![
        ScepterParamMeta::new("target", "Character or item target. Add region to select a placed instance.", true, "ScriptTarget"),
        ScepterParamMeta::new("values", "Attribute key/value pairs to set under [attributes]. JSON strings, numbers, booleans, arrays, and objects are converted to TOML.", false, "object"),
        ScepterParamMeta::new("remove", "Attribute keys to remove from [attributes].", false, "string[]"),
        ScepterParamMeta::new("validate", "Validate resulting TOML before applying.", false, "boolean"),
    ])
    .capabilities(vec![AttributeRead, AttributeWrite])
    .previewable()
    .undoable()
    .examples(vec![String::from_str("{\"command\":\"attributes.patch\",\"params\":{\"target\":{\"kind\":\"character\",\"region\":{\"name\":\"Harbor\"},\"name\":\"Harbor Lookout\"},\"values\":{\"faction\":\"dock_watch\",\"visible\":true,\"radius\":0.5},\"remove\":[\"temporary_note\"],\"validate\":true}}")]);
    proof {
        assert(m@ =~= entry_attributes_patch());
    }
    m
}

fn meta_action_list() -> (m: ScepterCommandMeta)
    ensures
        m@ == entry_action_list(),
{
    let m = ScepterCommandMeta::new(
        "action.list",
        "List editor actions that can be run through Scepter, with their ids and parameters.",
    )
    .capabilities(vec![ProjectRead]);
    proof {
        assert(m@ =~= entry_action_list());
    }
    m
}

fn meta_action_run() -> (m: ScepterCommandMeta)
    ensures
        m@ == entry_action_run(),
{
    let m = ScepterCommandMeta::new(
        "action.run",
        "Run one editor action by id, with its parameters given as TOML.",
    )
    .params(vec![
        ScepterParamMeta::new("id", "Stable editor action id such as face.extrude.", true, "string"),
        ScepterParamMeta::new("parameters_toml", "Action parameters as TOML text.", false, "string"),
    ])
    .capabilities(vec![ProjectWrite])
    .undoable()
    .examples(vec![String::from_str("{\"command\":\"action.run\",\"params\":{\"id\":\"face.extrude\",\"parameters_toml\":\"amount = 2\"}}")]);
    proof {
        assert(m@ =~= entry_action_run());
    }
    m
}

fn meta_action_run_script() -> (m: ScepterCommandMeta)
    ensures
        m@ == entry_action_run_script(),
{
    let m = ScepterCommandMeta::new(
        "action.run_script",
        "Run an Eldrin script that calls editor actions.",
    )
    .params(vec![
        ScepterParamMeta::new("source", "Eldrin source calling editor_action(id, parameters_toml).", true, "string"),
    ])
    .capabilities(vec![ProjectWrite, ScriptRead])
    .undoable()
    .examples(vec![String::from_str("{\"command\":\"action.run_script\",\"params\":{\"source\":\"editor_action(\\\"camera.isometric\\\", \\\"\\\");\"}}")]);
    proof {
        assert(m@ =~= entry_action_run_script());
    }
    m
}

fn meta_tool_list() -> (m: ScepterCommandMeta)
    ensures
        m@ == entry_tool_list(),
{
    let m = ScepterCommandMeta::new(
        "tool.list",
        "List the editor tools that can be selected.",
    )
    .capabilities(vec![ProjectRead]);
    proof {
        assert(m@ =~= entry_tool_list());
    }
    m
}

fn meta_tool_select() -> (m: ScepterCommandMeta)
    ensures
        m@ == entry_tool_select(),
{
    let m = ScepterCommandMeta::new(
        "tool.select",
        "Select an editor tool by id.",
    )
    .params(vec![
        ScepterParamMeta::new("id", "Stable tool id such as tool.geometry.", true, "string"),
    ])
    .capabilities(vec![ProjectRead])
    .examples(vec![String::from_str("{\"command\":\"tool.select\",\"params\":{\"id\":\"tool.geometry\"}}")]);
    proof {
        assert(m@ =~= entry_tool_select());
    }
    m
}

fn meta_geometry_create_room() -> (m: ScepterCommandMeta)
    ensures
        m@ == entry_geometry_create_room(),
{
    let m = ScepterCommandMeta::new(
        "geometry.create_room",
        "Create a high-level 3D room primitive with optional floor and wall tiles.",
    )
    .capabilities(vec![RegionWrite, TileRead])
    .previewable()
    .undoable();
    proof {
        assert(m@ =~= entry_geometry_create_room());
    }
    m
}

fn meta_geometry_place_builder_asset() -> (m: ScepterCommandMeta)
    ensures
        m@ == entry_geometry_place_builder_asset(),
{
    let m = ScepterCommandMeta::new(
        "geometry.place_builder_asset",
        "Place a reusable builder asset or prop in a 3D region.",
    )
    .capabilities(vec![RegionWrite, ProjectRead])
    .previewable()
    .undoable();
    proof {
        assert(m@ =~= entry_geometry_place_builder_asset());
    }
    m
}

/// The help for every built-in command, in declaration order.
pub fn built_in_commands() -> (all: Vec<ScepterCommandMeta>)
    ensures
        meta_views(all@) == built_in_catalog(),
{
    let mut all: Vec<ScepterCommandMeta> = Vec::new();
    all.push(meta_scepter_help());
    assert(all@[0]@ == catalog_entry(0));
    all.push(meta_scepter_list_commands());
    assert(all@[1]@ == catalog_entry(1));
    all.push(meta_scepter_describe_command());
    assert(all@[2]@ == catalog_entry(2));
    all.push(meta_project_describe());
    assert(all@[3]@ == catalog_entry(3));
    all.push(meta_project_undo());
    assert(all@[4]@ == catalog_entry(4));
    all.push(meta_project_redo());
    assert(all@[5]@ == catalog_entry(5));
    all.push(meta_region_list());
    assert(all@[6]@ == catalog_entry(6));
    all.push(meta_region_snapshot());
    assert(all@[7]@ == catalog_entry(7));
    all.push(meta_region_summary());
    assert(all@[8]@ == catalog_entry(8));
    all.push(meta_region_render_preview());
    assert(all@[9]@ == catalog_entry(9));
    all.push(meta_region_paint_rect());
    assert(all@[10]@ == catalog_entry(10));
    all.push(meta_region_paint_outline());
    assert(all@[11]@ == catalog_entry(11));
    all.push(meta_region_paint_cells());
    assert(all@[12]@ == catalog_entry(12));
    all.push(meta_region_create_sector());
    assert(all@[13]@ == catalog_entry(13));
    all.push(meta_region_place_item());
    assert(all@[14]@ == catalog_entry(14));
    all.push(meta_region_place_character());
    assert(all@[15]@ == catalog_entry(15));
    all.push(meta_tile_list());
    assert(all@[16]@ == catalog_entry(16));
    all.push(meta_tile_contact_sheet());
    assert(all@[17]@ == catalog_entry(17));
    all.push(meta_tile_create_from_rgba());
    assert(all@[18]@ == catalog_entry(18));
    all.push(meta_tile_set_meta());
    assert(all@[19]@ == catalog_entry(19));
    all.push(meta_tile_group_create());
    assert(all@[20]@ == catalog_entry(20));
    all.push(meta_tileset_list());
    assert(all@[21]@ == catalog_entry(21));
    all.push(meta_tileset_inspect());
    assert(all@[22]@ == catalog_entry(22));
    all.push(meta_tileset_grid_detect());
    assert(all@[23]@ == catalog_entry(23));
    all.push(meta_tileset_list_unimported());
    assert(all@[24]@ == catalog_entry(24));
    all.push(meta_tileset_import_tile());
    assert(all@[25]@ == catalog_entry(25));
    all.push(meta_tileset_import_anim());
    assert(all@[26]@ == catalog_entry(26));
    all.push(meta_tileset_import_multi());
    assert(all@[27]@ == catalog_entry(27));
    all.push(meta_tileset_import_batch());
    assert(all@[28]@ == catalog_entry(28));
    all.push(meta_script_get());
    assert(all@[29]@ == catalog_entry(29));
    all.push(meta_script_patch());
    assert(all@[30]@ == catalog_entry(30));
    all.push(meta_script_validate());
    assert(all@[31]@ == catalog_entry(31));
    all.push(meta_attributes_get());
    assert(all@[32]@ == catalog_entry(32));
    all.push(meta_attributes_patch());
    assert(all@[33]@ == catalog_entry(33));
    all.push(meta_action_list());
    assert(all@[34]@ == catalog_entry(34));
    all.push(meta_action_run());
    assert(all@[35]@ == catalog_entry(35));
    all.push(meta_action_run_script());
    assert(all@[36]@ == catalog_entry(36));
    all.push(meta_tool_list());
    assert(all@[37]@ == catalog_entry(37));
    all.push(meta_tool_select());
    assert(all@[38]@ == catalog_entry(38));
    all.push(meta_geometry_create_room());
    assert(all@[39]@ == catalog_entry(39));
    all.push(meta_geometry_place_builder_asset());
    assert(all@[40]@ == catalog_entry(40));
    proof {
        assert(meta_views(all@) =~= built_in_catalog()) by {
            assert forall|i: int| 0 <= i < all@.len() implies #[trigger] all@[i]@ == catalog_entry(i) by {
            }
        }
    }
    all
}

/// One command of each kind, in kind order (the payloads are left unspecified).
spec fn command_of_each_kind() -> Seq<ScepterCommand> {
    seq![
        ScepterCommand::ScepterHelp,
        ScepterCommand::ScepterListCommands,
        ScepterCommand::ScepterDescribeCommand { name: arbitrary() },
        ScepterCommand::ProjectDescribe,
        ScepterCommand::ProjectUndo,
        ScepterCommand::ProjectRedo,
        ScepterCommand::RegionList,
        ScepterCommand::RegionSnapshot(arbitrary()),
        ScepterCommand::RegionSummary(arbitrary()),
        ScepterCommand::RegionRenderPreview(arbitrary()),
        ScepterCommand::RegionPaintRect(arbitrary()),
        ScepterCommand::RegionPaintOutline(arbitrary()),
        ScepterCommand::RegionPaintCells(arbitrary()),
        ScepterCommand::RegionCreateSector(arbitrary()),
        ScepterCommand::RegionPlaceItem(arbitrary()),
        ScepterCommand::RegionPlaceCharacter(arbitrary()),
        ScepterCommand::TileList(arbitrary()),
        ScepterCommand::TileContactSheet(arbitrary()),
        ScepterCommand::TileCreateFromRgba(arbitrary()),
        ScepterCommand::TileSetMeta(arbitrary()),
        ScepterCommand::TileGroupCreate(arbitrary()),
        ScepterCommand::TilesetList,
        ScepterCommand::TilesetInspect(arbitrary()),
        ScepterCommand::TilesetGridDetect(arbitrary()),
        ScepterCommand::TilesetListUnimported(arbitrary()),
        ScepterCommand::TilesetImportTile(arbitrary()),
        ScepterCommand::TilesetImportAnim(arbitrary()),
        ScepterCommand::TilesetImportMulti(arbitrary()),
        ScepterCommand::TilesetImportBatch(arbitrary()),
        ScepterCommand::ScriptGet(arbitrary()),
        ScepterCommand::ScriptPatch(arbitrary()),
        ScepterCommand::ScriptValidate(arbitrary()),
        ScepterCommand::AttributesGet(arbitrary()),
        ScepterCommand::AttributesPatch(arbitrary()),
        ScepterCommand::ActionList,
        ScepterCommand::ActionRun(arbitrary()),
        ScepterCommand::ActionRunScript(arbitrary()),
        ScepterCommand::ToolList,
        ScepterCommand::ToolSelect(arbitrary()),
        ScepterCommand::GeometryCreateRoom(arbitrary()),
        ScepterCommand::GeometryPlaceBuilderAsset(arbitrary()),
    ]
}

/// The built-in catalog names every command kind once, in kind order: entry `i`
/// carries the protocol name of kind `i`, no two entries share a name, and so
/// the built-in lorebook keeps every entry, each under its own name.
pub proof fn lemma_built_in_keeps_every_entry()
    ensures
        names_distinct(built_in_catalog()),
        forall|i: int|
            0 <= i < built_in_catalog().len() ==> kind_of_protocol_name(#[trigger] built_in_catalog()[i].name) == i,
        forall|i: int|
            0 <= i < built_in_catalog().len() ==> entries_of(built_in_catalog()).contains_key(
                #[trigger] built_in_catalog()[i].name,
            ) && entries_of(built_in_catalog())[built_in_catalog()[i].name] == built_in_catalog()[i],
        entries_of(built_in_catalog()).dom().len() == built_in_catalog().len(),
{
    let cat = built_in_catalog();
    let reps = command_of_each_kind();
    assert(reps.len() == cat.len());
    assert forall|i: int| 0 <= i < cat.len() implies kind_of_protocol_name(#[trigger] cat[i].name) == i by {
        let c = reps[i];
        assert(command_kind(c) == i);
        lemma_built_in_describes_every_command(c);
        lemma_protocol_name_decodes(c);
    }
    assert forall|i: int, j: int| 0 <= i < cat.len() && 0 <= j < cat.len() && i != j implies #[trigger] cat[i].name != #[trigger] cat[j].name by {
        assert(kind_of_protocol_name(cat[i].name) == i);
        assert(kind_of_protocol_name(cat[j].name) == j);
    }
    assert forall|i: int| 0 <= i < cat.len() implies entries_of(cat).contains_key(#[trigger] cat[i].name)
        && entries_of(cat)[cat[i].name] == cat[i] by {
        lemma_entries_value(cat, i);
    }
    lemma_entries_len(cat);
}

/// With distinct names, the catalog has one key per entry.
pub proof fn lemma_entries_len(s: Seq<CommandMetaView>)
    requires
        names_distinct(s),
    ensures
        entries_of(s).dom().finite(),
        entries_of(s).dom().len() == s.len(),
    decreases s.len(),
{
    if s.len() > 0 {
        let t = s.drop_last();
        assert(names_distinct(t)) by {
            assert forall|a: int, b: int| 0 <= a < t.len() && 0 <= b < t.len() && a != b implies #[trigger] t[a].name != #[trigger] t[b].name by {
                assert(t[a] == s[a] && t[b] == s[b]);
            }
        }
        lemma_entries_len(t);
        lemma_entries_keys(t, s.last().name);
        if entries_of(t).contains_key(s.last().name) {
            let i = choose|i: int| 0 <= i < t.len() && #[trigger] t[i].name == s.last().name;
            assert(s[i].name == s[s.len() - 1].name);
        }
    }
}

/// Whether a capability lets a command change the project.
pub open spec fn is_write_capability(c: ScepterCapability) -> bool {
    ||| c == ScepterCapability::ProjectWrite
    ||| c == ScepterCapability::TileWrite
    ||| c == ScepterCapability::RegionWrite
    ||| c == ScepterCapability::AttributeWrite
    ||| c == ScepterCapability::ScriptWrite
}

/// Whether some capability in the list is a write capability.
pub open spec fn has_write_capability(caps: Seq<ScepterCapability>) -> bool
    decreases caps.len(),
{
    if caps.len() == 0 {
        false
    } else {
        is_write_capability(caps.last()) || has_write_capability(caps.drop_last())
    }
}

/// The catalog's consistency rules for one entry: it has at least one
/// capability, it is undoable exactly when one of them writes, and it is
/// previewable when it has the preview capability.
pub open spec fn capabilities_consistent(e: CommandMetaView) -> bool {
    &&& e.capabilities.len() > 0
    &&& e.undoable == has_write_capability(e.capabilities)
    &&& e.capabilities.contains(ScepterCapability::Preview) ==> e.previewable
}

/// Every built-in entry follows the catalog's capability rules.
pub proof fn lemma_built_in_capabilities_consistent()
    ensures
        forall|i: int|
            0 <= i < built_in_catalog().len() ==> capabilities_consistent(#[trigger] built_in_catalog()[i]),
{
    reveal_with_fuel(has_write_capability, 4);
    let cat = built_in_catalog();
    assert forall|i: int| 0 <= i < cat.len() implies capabilities_consistent(#[trigger] cat[i]) by {
        let e = cat[i];
        assert(e == catalog_entry(i));
        if e.capabilities.contains(ScepterCapability::Preview) {
            let k = choose|k: int| 0 <= k < e.capabilities.len() && e.capabilities[k] == ScepterCapability::Preview;
            assert(e.previewable);
        }
    }
}

proof fn lemma_entry_params_in_payload(i: int, j: int)
    requires
        0 <= i < built_in_catalog().len(),
        0 <= j < built_in_catalog()[i].params.len(),
    ensures
        payload_fields(i).contains((built_in_catalog()[i].params[j].name, built_in_catalog()[i].params[j].required)),
{
    let p = built_in_catalog()[i].params[j];
    assert(built_in_catalog()[i] == catalog_entry(i));
    if i == 2 {
        let k: int = 0;
        assert(payload_fields(i)[k] == (p.name, p.required));
    } else if i == 7 {
        let k: int = if j == 0 { 0 } else { 1 };
        assert(payload_fields(i)[k] == (p.name, p.required));
    } else if i == 8 {
        let k: int = if j == 0 { 0 } else { 1 };
        assert(payload_fields(i)[k] == (p.name, p.required));
    } else if i == 9 {
        let k: int = if j == 0 { 0 } else if j == 1 { 1 } else { 2 };
        assert(payload_fields(i)[k] == (p.name, p.required));
    } else if i == 10 {
        let k: int = if j == 0 { 0 } else if j == 1 { 1 } else if j == 2 { 2 } else if j == 3 { 3 } else if j == 4 { 4 } else { 5 };
        assert(payload_fields(i)[k] == (p.name, p.required));
    } else if i == 12 {
        let k: int = if j == 0 { 0 } else if j == 1 { 1 } else if j == 2 { 2 } else if j == 3 { 3 } else if j == 4 { 4 } else { 5 };
        assert(payload_fields(i)[k] == (p.name, p.required));
    } else if i == 19 {
        let k: int = if j == 0 { 0 } else if j == 1 { 1 } else if j == 2 { 2 } else if j == 3 { 3 } else if j == 4 { 4 } else { 6 };
        assert(payload_fields(i)[k] == (p.name, p.required));
    } else if i == 20 {
        let k: int = if j == 0 { 0 } else if j == 1 { 1 } else if j == 2 { 2 } else { 3 };
        assert(payload_fields(i)[k] == (p.name, p.required));
    } else if i == 22 {
        let k: int = 0;
        assert(payload_fields(i)[k] == (p.name, p.required));
    } else if i == 23 {
        let k: int = 0;
        assert(payload_fields(i)[k] == (p.name, p.required));
    } else if i == 24 {
        let k: int = 0;
        assert(payload_fields(i)[k] == (p.name, p.required));
    } else if i == 25 {
        let k: int = if j == 0 { 0 } else if j == 1 { 1 } else { 2 };
        assert(payload_fields(i)[k] == (p.name, p.required));
    } else if i == 26 {
        let k: int = if j == 0 { 0 } else if j == 1 { 1 } else { 2 };
        assert(payload_fields(i)[k] == (p.name, p.required));
    } else if i == 27 {
        let k: int = if j == 0 { 0 } else if j == 1 { 1 } else if j == 2 { 2 } else { 3 };
        assert(payload_fields(i)[k] == (p.name, p.required));
    } else if i == 28 {
        let k: int = if j == 0 { 0 } else if j == 1 { 1 } else { 2 };
        assert(payload_fields(i)[k] == (p.name, p.required));
    } else if i == 29 {
        let k: int = 0;
        assert(payload_fields(i)[k] == (p.name, p.required));
    } else if i == 30 {
        let k: int = if j == 0 { 0 } else if j == 1 { 1 } else { 2 };
        assert(payload_fields(i)[k] == (p.name, p.required));
    } else if i == 32 {
        let k: int = 0;
        assert(payload_fields(i)[k] == (p.name, p.required));
    } else if i == 33 {
        let k: int = if j == 0 { 0 } else if j == 1 { 1 } else if j == 2 { 2 } else { 3 };
        assert(payload_fields(i)[k] == (p.name, p.required));
    } else if i == 35 {
        let k: int = if j == 0 { 0 } else { 1 };
        assert(payload_fields(i)[k] == (p.name, p.required));
    } else if i == 36 {
        let k: int = 0;
        assert(payload_fields(i)[k] == (p.name, p.required));
    } else if i == 38 {
        let k: int = 0;
        assert(payload_fields(i)[k] == (p.name, p.required));
    }
}

/// Every parameter the built-in help lists is a field of its command's request
/// payload, and is marked required exactly when a request must carry that
/// field (it is neither optional nor defaulted).
pub proof fn lemma_built_in_params_match_payloads()
    ensures
        forall|i: int, j: int|
            0 <= i < built_in_catalog().len() && 0 <= j < built_in_catalog()[i].params.len() ==> payload_fields(
                i,
            ).contains(((#[trigger] built_in_catalog()[i].params[j]).name, built_in_catalog()[i].params[j].required)),
{
    assert forall|i: int, j: int|
        0 <= i < built_in_catalog().len() && 0 <= j < built_in_catalog()[i].params.len() implies payload_fields(
            i,
        ).contains(((#[trigger] built_in_catalog()[i].params[j]).name, built_in_catalog()[i].params[j].required)) by {
        lemma_entry_params_in_payload(i, j);
    }
}

/// Every command's protocol name is described by the built-in catalog, so
/// [`ScepterLorebook::built_in`] can describe any command a caller can build.
pub proof fn lemma_built_in_describes_every_command(c: ScepterCommand)
    ensures
        entries_of(built_in_catalog()).contains_key(protocol_name(c)),
        built_in_catalog()[command_kind(c)].name == protocol_name(c),
{
    let cat = built_in_catalog();
    lemma_entries_keys(cat, protocol_name(c));
    match c {
        ScepterCommand::ScepterHelp => {
            assert(cat[0].name == protocol_name(c));
        },
        ScepterCommand::ScepterListCommands => {
            assert(cat[1].name == protocol_name(c));
        },
        ScepterCommand::ScepterDescribeCommand { .. } => {
            assert(cat[2].name == protocol_name(c));
        },
        ScepterCommand::ProjectDescribe => {
            assert(cat[3].name == protocol_name(c));
        },
        ScepterCommand::ProjectUndo => {
            assert(cat[4].name == protocol_name(c));
        },
        ScepterCommand::ProjectRedo => {
            assert(cat[5].name == protocol_name(c));
        },
        ScepterCommand::RegionList => {
            assert(cat[6].name == protocol_name(c));
        },
        ScepterCommand::RegionSnapshot(_) => {
            assert(cat[7].name == protocol_name(c));
        },
        ScepterCommand::RegionSummary(_) => {
            assert(cat[8].name == protocol_name(c));
        },
        ScepterCommand::RegionRenderPreview(_) => {
            assert(cat[9].name == protocol_name(c));
        },
        ScepterCommand::RegionPaintRect(_) => {
            assert(cat[10].name == protocol_name(c));
        },
        ScepterCommand::RegionPaintOutline(_) => {
            assert(cat[11].name == protocol_name(c));
        },
        ScepterCommand::RegionPaintCells(_) => {
            assert(cat[12].name == protocol_name(c));
        },
        ScepterCommand::RegionCreateSector(_) => {
            assert(cat[13].name == protocol_name(c));
        },
        ScepterCommand::RegionPlaceItem(_) => {
            assert(cat[14].name == protocol_name(c));
        },
        ScepterCommand::RegionPlaceCharacter(_) => {
            assert(cat[15].name == protocol_name(c));
        },
        ScepterCommand::TileList(_) => {
            assert(cat[16].name == protocol_name(c));
        },
        ScepterCommand::TileContactSheet(_) => {
            assert(cat[17].name == protocol_name(c));
        },
        ScepterCommand::TileCreateFromRgba(_) => {
            assert(cat[18].name == protocol_name(c));
        },
        ScepterCommand::TileSetMeta(_) => {
            assert(cat[19].name == protocol_name(c));
        },
        ScepterCommand::TileGroupCreate(_) => {
            assert(cat[20].name == protocol_name(c));
        },
        ScepterCommand::TilesetList => {
            assert(cat[21].name == protocol_name(c));
        },
        ScepterCommand::TilesetInspect(_) => {
            assert(cat[22].name == protocol_name(c));
        },
        ScepterCommand::TilesetGridDetect(_) => {
            assert(cat[23].name == protocol_name(c));
        },
        ScepterCommand::TilesetListUnimported(_) => {
            assert(cat[24].name == protocol_name(c));
        },
        ScepterCommand::TilesetImportTile(_) => {
            assert(cat[25].name == protocol_name(c));
        },
        ScepterCommand::TilesetImportAnim(_) => {
            assert(cat[26].name == protocol_name(c));
        },
        ScepterCommand::TilesetImportMulti(_) => {
            assert(cat[27].name == protocol_name(c));
        },
        ScepterCommand::TilesetImportBatch(_) => {
            assert(cat[28].name == protocol_name(c));
        },
        ScepterCommand::ScriptGet(_) => {
            assert(cat[29].name == protocol_name(c));
        },
        ScepterCommand::ScriptPatch(_) => {
            assert(cat[30].name == protocol_name(c));
        },
        ScepterCommand::ScriptValidate(_) => {
            assert(cat[31].name == protocol_name(c));
        },
        ScepterCommand::AttributesGet(_) => {
            assert(cat[32].name == protocol_name(c));
        },
        ScepterCommand::AttributesPatch(_) => {
            assert(cat[33].name == protocol_name(c));
        },
        ScepterCommand::ActionList => {
            assert(cat[34].name == protocol_name(c));
        },
        ScepterCommand::ActionRun(_) => {
            assert(cat[35].name == protocol_name(c));
        },
        ScepterCommand::ActionRunScript(_) => {
            assert(cat[36].name == protocol_name(c));
        },
        ScepterCommand::ToolList => {
            assert(cat[37].name == protocol_name(c));
        },
        ScepterCommand::ToolSelect(_) => {
            assert(cat[38].name == protocol_name(c));
        },
        ScepterCommand::GeometryCreateRoom(_) => {
            assert(cat[39].name == protocol_name(c));
        },
        ScepterCommand::GeometryPlaceBuilderAsset(_) => {
            assert(cat[40].name == protocol_name(c));
        },
    }
}

} // verus!
