//! Bounded depth-first search of a provider's tree for nodes by name.
//!
//! The search keeps an explicit stack of nodes to check, never expands an
//! identifier twice, and stops after checking [`MAX_NODES`] nodes. What it
//! returns depends on what the provider answers while it runs; the model
//! below says what the result is for every sequence of answers.

use crate::protocol::{node_views, text_opt, Node, NodeView};
use crate::provider::AccessibilityProvider;
use crate::text::{contains, lowercase_of, occurs_in};
use vstd::hash_set::StringHashSet;
use vstd::prelude::*;

verus! {

/// The number of nodes a search checks at most.
pub const MAX_NODES: usize = 1000;

/// A node name contains the needle once the name is lowercased. A node
/// without a name contains nothing.
pub open spec fn name_hits(name: Option<Seq<char>>, needle: Seq<char>) -> bool {
    match name {
        Some(n) => occurs_in(needle, lowercase_of(n)),
        None => false,
    }
}

/// The match rule: the node has a name, and the name contains the query,
/// both taken in lowercase.
pub open spec fn name_matches(name: Option<Seq<char>>, query: Seq<char>) -> bool {
    name_hits(name, lowercase_of(query))
}

/// The nodes of `nodes` whose name contains the needle, in order.
pub open spec fn selected(nodes: Seq<NodeView>, needle: Seq<char>) -> Seq<NodeView>
    decreases nodes.len(),
{
    if nodes.len() == 0 {
        Seq::empty()
    } else if name_hits(nodes.last().name, needle) {
        selected(nodes.drop_last(), needle).push(nodes.last())
    } else {
        selected(nodes.drop_last(), needle)
    }
}

/// What a provider said when asked for a node: the node, or the message of
/// its failure.
pub type Answer = Result<NodeView, Seq<char>>;

/// The nodes among the answers to a node's children, in order. A child that
/// could not be fetched leaves no trace.
pub open spec fn fetched(answers: Seq<Answer>) -> Seq<NodeView>
    decreases answers.len(),
{
    if answers.len() == 0 {
        Seq::empty()
    } else {
        match answers.last() {
            Ok(node) => fetched(answers.drop_last()).push(node),
            Err(_) => fetched(answers.drop_last()),
        }
    }
}

/// The state of a search.
pub struct SearchState {
    /// Nodes still to check; the last one is checked next.
    pub pending: Seq<NodeView>,
    /// Nodes checked for the first time, in the order they were checked.
    pub expanded: Seq<NodeView>,
    /// Nodes found so far.
    pub matches: Seq<NodeView>,
    /// How many nodes were taken from `pending`, revisits included.
    pub checked: nat,
}

impl SearchState {
    /// The state a search starts in: only the root is pending.
    pub open spec fn start(root: NodeView) -> SearchState {
        SearchState {
            pending: seq![root],
            expanded: Seq::empty(),
            matches: Seq::empty(),
            checked: 0,
        }
    }

    /// Nothing is left to check, or the budget is spent.
    pub open spec fn finished(self) -> bool {
        self.pending.len() == 0 || self.checked >= MAX_NODES
    }

    /// The node that is checked next.
    pub open spec fn next(self) -> NodeView {
        self.pending.last()
    }

    /// An identifier was checked before.
    pub open spec fn has_visited(self, id: Seq<char>) -> bool {
        exists|i: int| 0 <= i < self.expanded.len() && (#[trigger] self.expanded[i]).id == id
    }

    /// The identifiers checked so far.
    pub open spec fn visited(self) -> Set<Seq<char>> {
        Set::new(|id: Seq<char>| self.has_visited(id))
    }

    /// The next node names an identifier that was checked before.
    pub open spec fn revisits(self) -> bool {
        self.has_visited(self.next().id)
    }

    /// Whether `answers` can be what `provider` said during the next step:
    /// nothing on a revisit; else one answer for each child of the next
    /// node, in order, each an answer the provider may give when asked for
    /// that child.
    pub open spec fn admits<P: AccessibilityProvider>(
        self,
        provider: &P,
        answers: Seq<Answer>,
    ) -> bool {
        if self.revisits() {
            answers.len() == 0
        } else {
            &&& answers.len() == self.next().children.len()
            &&& forall|j: int|
                0 <= j < answers.len() ==> provider.may_answer_node(
                    self.next().children[j],
                    #[trigger] answers[j],
                )
        }
    }

    /// The state after one step: the next node is taken and counted; unless
    /// it is a revisit, it is recorded, added to the matches if its name
    /// contains the needle, and the children that could be fetched are put
    /// on the stack in the order they were asked for.
    pub open spec fn step(self, needle: Seq<char>, answers: Seq<Answer>) -> SearchState {
        let node = self.next();
        if self.revisits() {
            SearchState {
                pending: self.pending.drop_last(),
                checked: self.checked + 1,
                ..self
            }
        } else {
            SearchState {
                pending: self.pending.drop_last() + fetched(answers),
                expanded: self.expanded.push(node),
                matches: if name_hits(node.name, needle) {
                    self.matches.push(node)
                } else {
                    self.matches
                },
                checked: self.checked + 1,
            }
        }
    }

    /// What a search that ends in this state reports.
    pub open spec fn outcome(self) -> SearchOutcomeView {
        SearchOutcomeView { matches: self.matches, truncated: self.pending.len() > 0 }
    }
}

/// The state after the steps of `trace`, each entry holding the answers of
/// one step, from the start at `root`.
pub open spec fn replay(
    root: NodeView,
    needle: Seq<char>,
    trace: Seq<Seq<Answer>>,
) -> SearchState
    decreases trace.len(),
{
    if trace.len() == 0 {
        SearchState::start(root)
    } else {
        replay(root, needle, trace.drop_last()).step(needle, trace.last())
    }
}

/// `trace` is a run of the search against `provider`: every step starts
/// from an unfinished state and has answers that state admits.
pub open spec fn is_run<P: AccessibilityProvider>(
    provider: &P,
    root: NodeView,
    needle: Seq<char>,
    trace: Seq<Seq<Answer>>,
) -> bool {
    forall|k: int|
        0 <= k < trace.len() ==> {
            let before = #[trigger] replay(root, needle, trace.take(k));
            !before.finished() && before.admits(provider, trace[k])
        }
}

/// `trace` is a run that ends in a finished state.
pub open spec fn is_complete_run<P: AccessibilityProvider>(
    provider: &P,
    root: NodeView,
    needle: Seq<char>,
    trace: Seq<Seq<Answer>>,
) -> bool {
    is_run(provider, root, needle, trace) && replay(root, needle, trace).finished()
}

/// What a search reports: the nodes found, and whether it stopped on its
/// budget with nodes left unchecked.
#[derive(Debug, Clone, PartialEq)]
pub struct SearchOutcome {
    pub matches: Vec<Node>,
    pub truncated: bool,
}

/// The view of a [`SearchOutcome`].
pub struct SearchOutcomeView {
    pub matches: Seq<NodeView>,
    pub truncated: bool,
}

impl View for SearchOutcome {
    type V = SearchOutcomeView;

    open spec fn view(&self) -> SearchOutcomeView {
        SearchOutcomeView { matches: node_views(self.matches@), truncated: self.truncated }
    }
}

/// `outcome` is what the search from `root` for `needle` reports for some
/// answers that `provider` may give to the questions the search asks.
pub open spec fn is_search_outcome<P: AccessibilityProvider>(
    provider: &P,
    root: NodeView,
    needle: Seq<char>,
    outcome: SearchOutcomeView,
) -> bool {
    exists|trace: Seq<Seq<Answer>>| #[trigger]
        is_complete_run(provider, root, needle, trace) && outcome == replay(
            root,
            needle,
            trace,
        ).outcome()
}

/// Whether the needle occurs in a name, both already lowercase.
pub fn lowered_name_contains(lowered_name: &str, needle: &str) -> (r: bool)
    ensures
        r == occurs_in(needle@, lowered_name@),
{
    contains(lowered_name, needle)
}

/// Whether a node's name contains the needle, which is already lowercase.
pub fn name_contains(name: &Option<String>, needle: &str) -> (r: bool)
    ensures
        r == name_hits(text_opt(*name), needle@),
{
    match name {
        Some(n) => {
            let lowered = n.to_lowercase();
            lowered_name_contains(lowered.as_str(), needle)
        },
        None => false,
    }
}

/// A search in progress.
pub struct Search {
    needle: String,
    to_visit: Vec<Node>,
    visited: StringHashSet,
    matches: Vec<Node>,
    checked: usize,
    expanded: Ghost<Seq<NodeView>>,
}

impl View for Search {
    type V = SearchState;

    closed spec fn view(&self) -> SearchState {
        SearchState {
            pending: node_views(self.to_visit@),
            expanded: self.expanded@,
            matches: node_views(self.matches@),
            checked: self.checked as nat,
        }
    }
}

impl Search {
    /// The lowercase text the search looks for.
    pub closed spec fn needle(&self) -> Seq<char> {
        self.needle@
    }

    /// The set of visited identifiers agrees with the nodes recorded.
    pub closed spec fn wf(&self) -> bool {
        self.visited@ == self@.visited()
    }

    /// A search for `query` that starts at `root`.
    pub fn new(root: Node, query: &str) -> (r: Search)
        ensures
            r.wf(),
            r@ == SearchState::start(root@),
            r.needle() == lowercase_of(query@),
            query@.len() == 0 ==> r.needle().len() == 0,
    {
        let mut to_visit: Vec<Node> = Vec::new();
        to_visit.push(root);
        let r = Search {
            needle: query.to_lowercase(),
            to_visit,
            visited: StringHashSet::new(),
            matches: Vec::new(),
            checked: 0,
            expanded: Ghost(Seq::empty()),
        };
        proof {
            assert(r@.pending =~= seq![root@]);
            assert(r@.matches =~= Seq::<NodeView>::empty());
            assert(r.visited@ =~= r@.visited());
        }
        r
    }

    /// Whether the search is over.
    pub fn is_finished(&self) -> (r: bool)
        ensures
            r == self@.finished(),
    {
        self.to_visit.len() == 0 || self.checked >= MAX_NODES
    }

    /// Takes one step: checks the next node and, unless it was visited
    /// before, asks `provider` for each of its children.
    pub fn step<P: AccessibilityProvider>(&mut self, provider: &P)
        requires
            old(self).wf(),
            !old(self)@.finished(),
        ensures
            final(self).wf(),
            final(self).needle() == old(self).needle(),
            exists|answers: Seq<Answer>| #[trigger]
                old(self)@.admits(provider, answers) && final(self)@ == old(self)@.step(
                    old(self).needle(),
                    answers,
                ),
    {
        let ghost before = self@;
        let ghost needle = self.needle@;
        let node = self.to_visit.pop().unwrap();
        assert(node_views(self.to_visit@) =~= before.pending.drop_last());
        self.checked = self.checked + 1;
        let first = self.visited.insert(node.id.as_str().to_string());
        let ghost mut answers: Seq<Answer> = Seq::empty();
        if !first {
            proof {
                assert(self.visited@ =~= before.visited());
                assert(self@.visited() =~= before.visited());
                assert(before.admits(provider, answers));
            }
            return ;
        }
        let hit = name_contains(&node.name, self.needle.as_str());
        let ghost base = before.pending.drop_last();
        let n = node.children.len();
        let mut i: usize = 0;
        while i < n
            invariant
                n == node.children.len(),
                i <= n,
                answers.len() == i,
                node@ == before.next(),
                forall|j: int|
                    0 <= j < answers.len() ==> provider.may_answer_node(
                        node@.children[j],
                        #[trigger] answers[j],
                    ),
                node_views(self.to_visit@) == base + fetched(answers),
                self.needle@ == needle,
                self.expanded@ == before.expanded,
                self.matches@ == old(self).matches@,
                self.checked == before.checked + 1,
                self.visited@ == before.visited().insert(node@.id),
            decreases n - i,
        {
            let ghost prior = answers;
            match provider.get_node(&node.children[i]) {
                Ok(child) => {
                    proof {
                        answers = prior.push(Ok(child@));
                        assert(answers.drop_last() =~= prior);
                        assert(base + fetched(prior).push(child@) =~= (base + fetched(
                            prior,
                        )).push(child@));
                    }
                    self.to_visit.push(child);
                },
                Err(e) => {
                    proof {
                        answers = prior.push(Err(e@));
                        assert(answers.drop_last() =~= prior);
                    }
                },
            }
            i = i + 1;
        }
        proof {
            self.expanded@ = self.expanded@.push(node@);
        }
        if hit {
            let ghost found = self.matches@;
            self.matches.push(node);
            assert(node_views(self.matches@) =~= node_views(found).push(node@));
        }
        proof {
            assert(before.admits(provider, answers));
            assert forall|id: Seq<char>| self@.has_visited(id) <==> (before.has_visited(id) || id
                == node@.id) by {
                if self@.has_visited(id) {
                    let k = choose|k: int|
                        0 <= k < self@.expanded.len() && (#[trigger] self@.expanded[k]).id == id;
                    assert(k < before.expanded.len() ==> before.expanded[k].id == id);
                }
                if before.has_visited(id) {
                    let k = choose|k: int|
                        0 <= k < before.expanded.len() && (#[trigger] before.expanded[k]).id
                            == id;
                    assert(self@.expanded[k].id == id);
                }
                if id == node@.id {
                    assert(self@.expanded[before.expanded.len() as int].id == id);
                }
            }
            assert(self.visited@ =~= self@.visited());
        }
    }

    /// Ends the search and reports what it found.
    pub fn finish(self) -> (r: SearchOutcome)
        ensures
            r@ == self@.outcome(),
    {
        let truncated = self.to_visit.len() > 0;
        SearchOutcome { matches: self.matches, truncated }
    }
}

/// No two nodes of the sequence have the same identifier.
pub open spec fn distinct_ids(nodes: Seq<NodeView>) -> bool {
    forall|i: int, j: int| 0 <= i < j < nodes.len() ==> nodes[i].id != nodes[j].id
}

/// What holds of every state a run reaches: no identifier was expanded
/// twice, the matches are exactly the expanded nodes whose name contains
/// the needle, and the budget was kept.
pub open spec fn sound(state: SearchState, needle: Seq<char>) -> bool {
    &&& distinct_ids(state.expanded)
    &&& state.matches == selected(state.expanded, needle)
    &&& state.expanded.len() <= state.checked <= MAX_NODES
}

/// A run without its last step is a run.
pub proof fn lemma_run_prefix<P: AccessibilityProvider>(
    provider: &P,
    root: NodeView,
    needle: Seq<char>,
    trace: Seq<Seq<Answer>>,
)
    requires
        is_run(provider, root, needle, trace),
        trace.len() > 0,
    ensures
        is_run(provider, root, needle, trace.drop_last()),
        !replay(root, needle, trace.drop_last()).finished(),
        replay(root, needle, trace.drop_last()).admits(provider, trace.last()),
{
    let shorter = trace.drop_last();
    assert forall|k: int| 0 <= k < shorter.len() implies ({
        let before = #[trigger] replay(root, needle, shorter.take(k));
        !before.finished() && before.admits(provider, shorter[k])
    }) by {
        assert(shorter.take(k) =~= trace.take(k));
    }
    assert(trace.take(trace.len() - 1) =~= shorter);
}

/// Every state that a run reaches is sound: whatever the provider answers,
/// and whatever cycles its child references hold, no identifier is expanded
/// twice, and at most [`MAX_NODES`] nodes are checked.
pub proof fn lemma_run_is_sound<P: AccessibilityProvider>(
    provider: &P,
    root: NodeView,
    needle: Seq<char>,
    trace: Seq<Seq<Answer>>,
)
    requires
        is_run(provider, root, needle, trace),
    ensures
        sound(replay(root, needle, trace), needle),
    decreases trace.len(),
{
    if trace.len() > 0 {
        lemma_run_prefix(provider, root, needle, trace);
        lemma_run_is_sound(provider, root, needle, trace.drop_last());
        let before = replay(root, needle, trace.drop_last());
        let after = before.step(needle, trace.last());
        if !before.revisits() {
            assert(after.expanded.drop_last() =~= before.expanded);
            assert forall|i: int, j: int| 0 <= i < j < after.expanded.len() implies after.expanded[i].id
                != after.expanded[j].id by {
                if j == before.expanded.len() {
                    assert(before.expanded[i].id != before.next().id);
                }
            }
        }
    }
}

/// What is selected from a sequence: every selected node is one of the
/// sequence and its name contains the needle, the order is kept, and a
/// sequence without repeated identifiers selects none twice.
pub proof fn lemma_selected(nodes: Seq<NodeView>, needle: Seq<char>)
    ensures
        selected(nodes, needle).len() <= nodes.len(),
        forall|i: int|
            0 <= i < selected(nodes, needle).len() ==> {
                &&& name_hits((#[trigger] selected(nodes, needle)[i]).name, needle)
                &&& nodes.contains(selected(nodes, needle)[i])
            },
        forall|i: int|
            0 <= i < nodes.len() && name_hits((#[trigger] nodes[i]).name, needle) ==> selected(
                nodes,
                needle,
            ).contains(nodes[i]),
        distinct_ids(nodes) ==> distinct_ids(selected(nodes, needle)),
        nodes.len() > 0 && name_hits(nodes[0].name, needle) ==> selected(nodes, needle).len() > 0
            && selected(nodes, needle)[0] == nodes[0],
    decreases nodes.len(),
{
    if nodes.len() > 0 {
        let init = nodes.drop_last();
        let last = nodes.last();
        lemma_selected(init, needle);
        let chosen = selected(nodes, needle);
        let before = selected(init, needle);
        assert forall|i: int| 0 <= i < chosen.len() implies {
            &&& name_hits((#[trigger] chosen[i]).name, needle)
            &&& nodes.contains(chosen[i])
        } by {
            if i < before.len() {
                assert(chosen[i] == before[i]);
                let k = choose|k: int| 0 <= k < init.len() && init[k] == before[i];
                assert(nodes[k] == chosen[i]);
            } else {
                assert(chosen[i] == last);
                assert(nodes[nodes.len() - 1] == last);
            }
        }
        assert forall|i: int|
            0 <= i < nodes.len() && name_hits((#[trigger] nodes[i]).name, needle) implies chosen.contains(
            nodes[i],
        ) by {
            if i < init.len() {
                assert(init[i] == nodes[i]);
                let k = choose|k: int| 0 <= k < before.len() && before[k] == init[i];
                assert(chosen[k] == nodes[i]);
            } else {
                assert(chosen[chosen.len() - 1] == nodes[i]);
            }
        }
        if distinct_ids(nodes) {
            assert(distinct_ids(init)) by {
                assert forall|i: int, j: int| 0 <= i < j < init.len() implies init[i].id
                    != init[j].id by {
                    assert(nodes[i].id != nodes[j].id);
                }
            }
            assert forall|i: int, j: int| 0 <= i < j < chosen.len() implies chosen[i].id
                != chosen[j].id by {
                if j < before.len() {
                    assert(before[i].id != before[j].id);
                } else {
                    let k = choose|k: int| 0 <= k < init.len() && init[k] == before[i];
                    assert(nodes[k].id != nodes[nodes.len() - 1].id);
                }
            }
        }
        if name_hits(nodes[0].name, needle) {
            if init.len() > 0 {
                assert(init[0] == nodes[0]);
                assert(chosen[0] == before[0]);
            }
        }
    }
}

/// With the empty needle every node that has a name is selected.
pub proof fn lemma_empty_needle_selects_named(nodes: Seq<NodeView>, needle: Seq<char>)
    requires
        needle.len() == 0,
    ensures
        forall|i: int|
            0 <= i < nodes.len() && (#[trigger] nodes[i]).name is Some ==> selected(
                nodes,
                needle,
            ).contains(nodes[i]),
{
    lemma_selected(nodes, needle);
    assert forall|i: int| 0 <= i < nodes.len() && (#[trigger] nodes[i]).name is Some implies selected(
        nodes,
        needle,
    ).contains(nodes[i]) by {
        assert(needle =~= Seq::<char>::empty());
        crate::text::lemma_empty_occurs(lowercase_of(nodes[i].name->0));
    }
}

/// The root is the first node a run expands.
pub proof fn lemma_root_is_first<P: AccessibilityProvider>(
    provider: &P,
    root: NodeView,
    needle: Seq<char>,
    trace: Seq<Seq<Answer>>,
)
    requires
        is_run(provider, root, needle, trace),
        trace.len() > 0,
    ensures
        replay(root, needle, trace).expanded.len() > 0,
        replay(root, needle, trace).expanded[0] == root,
    decreases trace.len(),
{
    lemma_run_prefix(provider, root, needle, trace);
    let shorter = trace.drop_last();
    if shorter.len() > 0 {
        lemma_run_is_sound(provider, root, needle, shorter);
        lemma_root_is_first(provider, root, needle, shorter);
    } else {
        let first = SearchState::start(root);
        assert(first.next() == root);
        assert(!first.revisits());
    }
}

/// A run takes one step for each node it checks, so it has at most
/// [`MAX_NODES`] steps.
pub proof fn lemma_run_counts_steps<P: AccessibilityProvider>(
    provider: &P,
    root: NodeView,
    needle: Seq<char>,
    trace: Seq<Seq<Answer>>,
)
    requires
        is_run(provider, root, needle, trace),
    ensures
        replay(root, needle, trace).checked == trace.len(),
        trace.len() <= MAX_NODES,
    decreases trace.len(),
{
    if trace.len() > 0 {
        lemma_run_prefix(provider, root, needle, trace);
        lemma_run_counts_steps(provider, root, needle, trace.drop_last());
    }
}

/// With the empty needle a run finds every node it expands that has a
/// name, whatever the name is.
pub proof fn lemma_empty_needle_finds_every_named_node<P: AccessibilityProvider>(
    provider: &P,
    root: NodeView,
    needle: Seq<char>,
    trace: Seq<Seq<Answer>>,
)
    requires
        is_run(provider, root, needle, trace),
        needle.len() == 0,
    ensures
        forall|i: int|
            0 <= i < replay(root, needle, trace).expanded.len() && (#[trigger] replay(
                root,
                needle,
                trace,
            ).expanded[i]).name is Some ==> replay(root, needle, trace).matches.contains(
                replay(root, needle, trace).expanded[i],
            ),
{
    lemma_run_is_sound(provider, root, needle, trace);
    lemma_empty_needle_selects_named(replay(root, needle, trace).expanded, needle);
}

/// Matching ignores case: two queries with one lowercase form match the
/// same names, and two names with one lowercase form are matched by the
/// same queries.
pub proof fn lemma_matching_ignores_case(
    name: Seq<char>,
    other_name: Seq<char>,
    query: Seq<char>,
    other_query: Seq<char>,
)
    requires
        lowercase_of(name) == lowercase_of(other_name),
        lowercase_of(query) == lowercase_of(other_query),
    ensures
        name_matches(Some(name), query) == name_matches(Some(other_name), other_query),
{
}

/// What every outcome of a search has, whatever the provider answered: at
/// most [`MAX_NODES`] matches, none twice; every match has a name that
/// contains the needle; and a root whose name contains the needle is the
/// first match.
pub proof fn lemma_outcome<P: AccessibilityProvider>(
    provider: &P,
    root: NodeView,
    needle: Seq<char>,
    outcome: SearchOutcomeView,
)
    requires
        is_search_outcome(provider, root, needle, outcome),
    ensures
        outcome.matches.len() <= MAX_NODES,
        distinct_ids(outcome.matches),
        forall|i: int|
            0 <= i < outcome.matches.len() ==> name_hits(
                (#[trigger] outcome.matches[i]).name,
                needle,
            ),
        name_hits(root.name, needle) ==> outcome.matches.len() > 0 && outcome.matches[0] == root,
        needle.len() == 0 && root.name is Some ==> outcome.matches.len() > 0 && outcome.matches[0]
            == root,
{
    let trace = choose|trace: Seq<Seq<Answer>>| #[trigger]
        is_complete_run(provider, root, needle, trace) && outcome == replay(
            root,
            needle,
            trace,
        ).outcome();
    let end = replay(root, needle, trace);
    lemma_run_is_sound(provider, root, needle, trace);
    lemma_selected(end.expanded, needle);
    assert(trace.len() > 0) by {
        if trace.len() == 0 {
            assert(!SearchState::start(root).finished());
        }
    }
    lemma_root_is_first(provider, root, needle, trace);
    if needle.len() == 0 && root.name is Some {
        assert(needle =~= Seq::<char>::empty());
        crate::text::lemma_empty_occurs(lowercase_of(root.name->0));
    }
}

/// Searches the tree below `root` for the nodes whose name contains `name`,
/// case-insensitively, asking `provider` for the children of each node it
/// expands.
///
/// The result is the outcome of the search for the answers the provider
/// gave. A child that cannot be fetched is skipped; reaching the budget
/// ends the search with what was found so far.
pub fn find_by_name<P: AccessibilityProvider>(provider: &P, root: Node, name: &str) -> (outcome:
    SearchOutcome)
    ensures
        is_search_outcome(provider, root@, lowercase_of(name@), outcome@),
        outcome@.matches.len() <= MAX_NODES,
        distinct_ids(outcome@.matches),
        forall|i: int|
            0 <= i < outcome@.matches.len() ==> name_matches(
                (#[trigger] outcome@.matches[i]).name,
                name@,
            ),
        name_matches(root@.name, name@) ==> outcome@.matches.len() > 0 && outcome@.matches[0]
            == root@,
        name@.len() == 0 && root@.name is Some ==> outcome@.matches.len() > 0
            && outcome@.matches[0] == root@,
{
    let ghost needle = lowercase_of(name@);
    let ghost mut trace: Seq<Seq<Answer>> = Seq::empty();
    let mut search = Search::new(root, name);
    while !search.is_finished()
        invariant
            search.wf(),
            search.needle() == needle,
            search@ == replay(root@, needle, trace),
            is_run(provider, root@, needle, trace),
        decreases MAX_NODES - search@.checked,
    {
        let ghost before = search@;
        search.step(provider);
        proof {
            let answers = choose|answers: Seq<Answer>| #[trigger]
                before.admits(provider, answers) && search@ == before.step(needle, answers);
            let longer = trace.push(answers);
            assert(longer.drop_last() =~= trace);
            assert forall|k: int| 0 <= k < longer.len() implies ({
                let state = #[trigger] replay(root@, needle, longer.take(k));
                !state.finished() && state.admits(provider, longer[k])
            }) by {
                if k < trace.len() {
                    assert(longer.take(k) =~= trace.take(k));
                } else {
                    assert(longer.take(k) =~= trace);
                }
            }
            trace = longer;
        }
    }
    let outcome = search.finish();
    proof {
        assert(is_complete_run(provider, root@, needle, trace));
        lemma_outcome(provider, root@, needle, outcome@);
    }
    outcome
}

} // verus!
