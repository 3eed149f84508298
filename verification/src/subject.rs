//! The subject codec: how a chain of resource ids becomes a subject on the
//! bus, and how a subject prefix becomes the query of a stream group.
//!
//! Every subject starts with a common prefix. The ids follow in the order
//! project, collection, shared object or shared object group, object or
//! object group, each introduced by the separator `._.`. Before the third id
//! stands a denominator that tells whether that id names a shared object or a
//! shared object group.

use vstd::prelude::*;
use crate::model::texts;

verus! {

/// The prefix every subject begins with.
pub open spec fn common_prefix() -> Seq<char> {
    "UPDATES.STORAGE"@
}

/// The token sequence that stands between two tokens of a subject.
pub open spec fn separator() -> Seq<char> {
    "._."@
}

/// What ends a publish subject and the query of one exact scope.
pub open spec fn leaf_terminator() -> Seq<char> {
    "._"@
}

/// What ends the query of a scope together with everything below it.
pub open spec fn wildcard_terminator() -> Seq<char> {
    ".>"@
}

/// The token that announces the third id of a chain.
pub open spec fn denominator(is_object_group: bool) -> Seq<char> {
    if is_object_group {
        "OBJECTGROUP"@
    } else {
        "OBJECT"@
    }
}

/// The prefix of a subject: the common prefix, then every id behind a
/// separator, with the denominator between the second and the third id.
pub open spec fn base_subject_of(ids: Seq<Seq<char>>, is_object_group: bool) -> Seq<char>
    decreases ids.len(),
{
    if ids.len() == 0 {
        common_prefix()
    } else {
        let head = base_subject_of(ids.drop_last(), is_object_group);
        if ids.len() == 3 {
            head + separator() + denominator(is_object_group) + separator() + ids.last()
        } else {
            head + separator() + ids.last()
        }
    }
}

/// The subject an event on the chain is published on.
pub open spec fn subject_of(ids: Seq<Seq<char>>, is_object_group: bool) -> Seq<char> {
    base_subject_of(ids, is_object_group) + leaf_terminator()
}

/// The query on a subject prefix: the exact scope, or the scope and all its
/// descendants.
pub open spec fn query_of(base: Seq<char>, include_subresources: bool) -> Seq<char> {
    if include_subresources {
        base + wildcard_terminator()
    } else {
        base + leaf_terminator()
    }
}

/// The tokens a chain is made of, in the order in which they are emitted.
pub open spec fn chain_tokens(ids: Seq<Seq<char>>, is_object_group: bool) -> Seq<Seq<char>>
    decreases ids.len(),
{
    if ids.len() == 0 {
        seq![common_prefix()]
    } else {
        let head = chain_tokens(ids.drop_last(), is_object_group);
        if ids.len() == 3 {
            head.push(denominator(is_object_group)).push(ids.last())
        } else {
            head.push(ids.last())
        }
    }
}

/// Tokens written one after the other with a separator between neighbours.
pub open spec fn join_tokens(tokens: Seq<Seq<char>>) -> Seq<char>
    decreases tokens.len(),
{
    if tokens.len() == 0 {
        Seq::empty()
    } else if tokens.len() == 1 {
        tokens[0]
    } else {
        join_tokens(tokens.drop_last()) + separator() + tokens.last()
    }
}

/// `text` ends with `suffix`.
pub open spec fn ends_with(text: Seq<char>, suffix: Seq<char>) -> bool {
    text.len() >= suffix.len() && text.subrange(text.len() - suffix.len(), text.len() as int)
        == suffix
}

/// `text` begins with `prefix`.
pub open spec fn begins_with(text: Seq<char>, prefix: Seq<char>) -> bool {
    text.len() >= prefix.len() && text.subrange(0, prefix.len() as int) == prefix
}

/// `pattern` stands somewhere in `text`.
pub open spec fn occurs_in(text: Seq<char>, pattern: Seq<char>) -> bool {
    exists|at: int|
        0 <= at <= text.len() - pattern.len() && #[trigger] text.subrange(
            at,
            at + pattern.len(),
        ) == pattern
}

/// `token` is one of the two denominators.
pub open spec fn is_denominator(token: Seq<char>) -> bool {
    token == denominator(true) || token == denominator(false)
}

/// Utility functions for the subjects and queries of the bus.
pub struct NatsIOUtils {}

impl NatsIOUtils {
    /// Builds the prefix shared by the subject and the queries of a chain of
    /// ids, given from the project downwards.
    pub fn base_subject(ids: Vec<String>, is_object_group: bool) -> (base_subject: String)
        ensures
            base_subject@ == base_subject_of(texts(ids@), is_object_group),
    {
        let mut base_subject = String::new();
        base_subject.append("UPDATES.STORAGE");
        let mut stage: usize = 0;
        proof {
            assert(texts(ids@).take(0).len() == 0);
            assert(base_subject@ =~= common_prefix());
        }
        while stage < ids.len()
            invariant
                stage <= ids.len(),
                base_subject@ == base_subject_of(
                    texts(ids@).take(stage as int),
                    is_object_group,
                ),
            decreases ids.len() - stage,
        {
            if stage == 2 {
                base_subject.append("._.");
                if is_object_group {
                    base_subject.append("OBJECTGROUP");
                } else {
                    base_subject.append("OBJECT");
                }
            }
            base_subject.append("._.");
            base_subject.append(ids[stage].as_str());
            proof {
                let chain = texts(ids@);
                let upto = chain.take(stage as int + 1);
                assert(upto.drop_last() =~= chain.take(stage as int));
                assert(upto.last() == ids@[stage as int]@);
            }
            stage += 1;
        }
        proof {
            assert(texts(ids@).take(stage as int) =~= texts(ids@));
        }
        base_subject
    }

    /// Turns a subject prefix into a query, depending on whether the
    /// resources below the scope are included.
    pub fn query(base_subject: String, include_subresources: bool) -> (query: String)
        ensures
            query@ == query_of(base_subject@, include_subresources),
    {
        if include_subresources {
            base_subject.concat(".>")
        } else {
            base_subject.concat("._")
        }
    }

    /// The subject on which an event on a project is published.
    pub fn project_subject(project_id: String) -> (subject: String)
        ensures
            subject@ == subject_of(seq![project_id@], false),
    {
        let ids = vec![project_id];
        proof {
            assert(texts(ids@) =~= seq![project_id@]);
        }
        NatsIOUtils::base_subject(ids, false).concat("._")
    }

    /// The query of a stream group on a project.
    pub fn project_query(project_id: String, include_subresources: bool) -> (query: String)
        ensures
            query@ == query_of(base_subject_of(seq![project_id@], false), include_subresources),
    {
        let ids = vec![project_id];
        proof {
            assert(texts(ids@) =~= seq![project_id@]);
        }
        let base_subject = NatsIOUtils::base_subject(ids, false);
        NatsIOUtils::query(base_subject, include_subresources)
    }

    /// The subject on which an event on a collection is published.
    pub fn collection_subject(project_id: String, collection_id: String) -> (subject: String)
        ensures
            subject@ == subject_of(seq![project_id@, collection_id@], false),
    {
        let ids = vec![project_id, collection_id];
        proof {
            assert(texts(ids@) =~= seq![project_id@, collection_id@]);
        }
        NatsIOUtils::base_subject(ids, false).concat("._")
    }

    /// The query of a stream group on a collection.
    pub fn collection_query(
        project_id: String,
        collection_id: String,
        include_subresources: bool,
    ) -> (query: String)
        ensures
            query@ == query_of(
                base_subject_of(seq![project_id@, collection_id@], false),
                include_subresources,
            ),
    {
        let ids = vec![project_id, collection_id];
        proof {
            assert(texts(ids@) =~= seq![project_id@, collection_id@]);
        }
        let base_subject = NatsIOUtils::base_subject(ids, false);
        NatsIOUtils::query(base_subject, include_subresources)
    }

    /// The subject on which an event on an object is published for those
    /// who watch the object itself.
    pub fn object_subject(
        project_id: String,
        collection_id: String,
        shared_object_id: String,
        object_id: String,
    ) -> (subject: String)
        ensures
            subject@ == subject_of(
                seq![project_id@, collection_id@, shared_object_id@, object_id@],
                false,
            ),
    {
        let ids = vec![project_id, collection_id, shared_object_id, object_id];
        proof {
            assert(texts(ids@) =~= seq![
                project_id@,
                collection_id@,
                shared_object_id@,
                object_id@,
            ]);
        }
        NatsIOUtils::base_subject(ids, false).concat("._")
    }

    /// The query of a stream group on an object.
    pub fn object_query(
        project_id: String,
        collection_id: String,
        shared_object_id: String,
        object_id: String,
        include_subresources: bool,
    ) -> (query: String)
        ensures
            query@ == query_of(
                base_subject_of(
                    seq![project_id@, collection_id@, shared_object_id@, object_id@],
                    false,
                ),
                include_subresources,
            ),
    {
        let ids = vec![project_id, collection_id, shared_object_id, object_id];
        proof {
            assert(texts(ids@) =~= seq![
                project_id@,
                collection_id@,
                shared_object_id@,
                object_id@,
            ]);
        }
        let base_subject = NatsIOUtils::base_subject(ids, false);
        NatsIOUtils::query(base_subject, include_subresources)
    }

    /// The subject on which an event is published for those who watch an
    /// object group.
    pub fn object_group_subject(
        project_id: String,
        collection_id: String,
        shared_object_group_id: String,
        object_group_id: String,
    ) -> (subject: String)
        ensures
            subject@ == subject_of(
                seq![project_id@, collection_id@, shared_object_group_id@, object_group_id@],
                true,
            ),
    {
        let ids = vec![project_id, collection_id, shared_object_group_id, object_group_id];
        proof {
            assert(texts(ids@) =~= seq![
                project_id@,
                collection_id@,
                shared_object_group_id@,
                object_group_id@,
            ]);
        }
        NatsIOUtils::base_subject(ids, true).concat("._")
    }

    /// The query of a stream group on an object group.
    pub fn object_group_query(
        project_id: String,
        collection_id: String,
        shared_object_group_id: String,
        object_group_id: String,
        include_subresources: bool,
    ) -> (query: String)
        ensures
            query@ == query_of(
                base_subject_of(
                    seq![project_id@, collection_id@, shared_object_group_id@, object_group_id@],
                    true,
                ),
                include_subresources,
            ),
    {
        let ids = vec![project_id, collection_id, shared_object_group_id, object_group_id];
        proof {
            assert(texts(ids@) =~= seq![
                project_id@,
                collection_id@,
                shared_object_group_id@,
                object_group_id@,
            ]);
        }
        let base_subject = NatsIOUtils::base_subject(ids, true);
        NatsIOUtils::query(base_subject, include_subresources)
    }
}

/// Every subject prefix, and so every subject and every query, begins with
/// the common prefix.
pub proof fn lemma_base_subject_begins_with_prefix(ids: Seq<Seq<char>>, is_object_group: bool)
    ensures
        begins_with(base_subject_of(ids, is_object_group), common_prefix()),
        begins_with(subject_of(ids, is_object_group), common_prefix()),
        forall|include_subresources: bool|
            begins_with(
                #[trigger] query_of(base_subject_of(ids, is_object_group), include_subresources),
                common_prefix(),
            ),
    decreases ids.len(),
{
    let base = base_subject_of(ids, is_object_group);
    let width = common_prefix().len() as int;
    if ids.len() == 0 {
        assert(base.subrange(0, width) =~= common_prefix());
    } else {
        lemma_base_subject_begins_with_prefix(ids.drop_last(), is_object_group);
        let head = base_subject_of(ids.drop_last(), is_object_group);
        assert(base.subrange(0, width) =~= head.subrange(0, width));
    }
    assert(subject_of(ids, is_object_group).subrange(0, width) =~= base.subrange(0, width));
    assert forall|include_subresources: bool|
        begins_with(#[trigger] query_of(base, include_subresources), common_prefix()) by {
        assert(query_of(base, include_subresources).subrange(0, width) =~= base.subrange(
            0,
            width,
        ));
    }
}

/// A query without subresources is the subject of its scope. The subject of
/// every resource below a scope begins with the prefix of the scope followed
/// by a separator: it is what the query with subresources of that scope
/// selects.
pub proof fn lemma_subjects_below_extend_scope(
    ids: Seq<Seq<char>>,
    depth: int,
    is_object_group: bool,
)
    requires
        0 <= depth < ids.len(),
    ensures
        query_of(base_subject_of(ids, is_object_group), false) == subject_of(ids, is_object_group),
        begins_with(
            base_subject_of(ids, is_object_group),
            base_subject_of(ids.take(depth), is_object_group) + separator(),
        ),
        begins_with(
            subject_of(ids, is_object_group),
            base_subject_of(ids.take(depth), is_object_group) + separator(),
        ),
    decreases ids.len(),
{
    let base = base_subject_of(ids, is_object_group);
    let head = base_subject_of(ids.drop_last(), is_object_group);
    let scope = base_subject_of(ids.take(depth), is_object_group) + separator();
    if depth == ids.len() - 1 {
        assert(ids.take(depth) =~= ids.drop_last());
        assert(base.subrange(0, scope.len() as int) =~= scope);
    } else {
        lemma_subjects_below_extend_scope(ids.drop_last(), depth, is_object_group);
        assert(ids.drop_last().take(depth) =~= ids.take(depth));
        assert(base.subrange(0, scope.len() as int) =~= head.subrange(0, scope.len() as int));
    }
    assert(subject_of(ids, is_object_group).subrange(0, scope.len() as int) =~= base.subrange(
        0,
        scope.len() as int,
    ));
}

/// A query without subresources ends in the leaf terminator and not in the
/// wildcard; a query with subresources ends in the wildcard and not in the
/// leaf terminator. This holds of every chain of ids.
pub proof fn lemma_query_terminator(
    ids: Seq<Seq<char>>,
    is_object_group: bool,
    include_subresources: bool,
)
    ensures
        ends_with(
            query_of(base_subject_of(ids, is_object_group), include_subresources),
            wildcard_terminator(),
        ) == include_subresources,
        ends_with(
            query_of(base_subject_of(ids, is_object_group), include_subresources),
            leaf_terminator(),
        ) == !include_subresources,
        ends_with(subject_of(ids, is_object_group), leaf_terminator()),
{
    reveal_strlit("._");
    reveal_strlit(".>");
    let base = base_subject_of(ids, is_object_group);
    let query = query_of(base, include_subresources);
    let tail = query.subrange(query.len() - 2, query.len() as int);
    if include_subresources {
        assert(tail =~= wildcard_terminator());
        assert(tail[1] == '>');
    } else {
        assert(tail =~= leaf_terminator());
        assert(tail[1] == '_');
    }
    let subject = subject_of(ids, is_object_group);
    assert(subject.subrange(subject.len() - 2, subject.len() as int) =~= leaf_terminator());
}

/// Where the tokens of a chain stand: the common prefix first, then the first
/// two ids, then, if the chain goes on, the denominator and the other ids.
pub proof fn lemma_chain_tokens_layout(ids: Seq<Seq<char>>, is_object_group: bool)
    ensures
        chain_tokens(ids, is_object_group).len() == ids.len() + 1 + (if ids.len() >= 3 {
            1int
        } else {
            0int
        }),
        chain_tokens(ids, is_object_group)[0] == common_prefix(),
        forall|i: int|
            1 <= i <= ids.len() && i <= 2 ==> #[trigger] chain_tokens(ids, is_object_group)[i]
                == ids[i - 1],
        ids.len() >= 3 ==> chain_tokens(ids, is_object_group)[3] == denominator(is_object_group),
        forall|i: int|
            4 <= i <= ids.len() + 1 ==> #[trigger] chain_tokens(ids, is_object_group)[i] == ids[i
                - 2],
    decreases ids.len(),
{
    if ids.len() > 0 {
        lemma_chain_tokens_layout(ids.drop_last(), is_object_group);
    }
}

/// The subject prefix of a chain is its tokens joined by the separator.
pub proof fn lemma_base_subject_joins_tokens(ids: Seq<Seq<char>>, is_object_group: bool)
    ensures
        base_subject_of(ids, is_object_group) == join_tokens(chain_tokens(ids, is_object_group)),
    decreases ids.len(),
{
    if ids.len() == 0 {
        assert(seq![common_prefix()].len() == 1);
    } else {
        let rest = ids.drop_last();
        lemma_base_subject_joins_tokens(rest, is_object_group);
        lemma_chain_tokens_layout(rest, is_object_group);
        let head = chain_tokens(rest, is_object_group);
        if ids.len() == 3 {
            let middle = head.push(denominator(is_object_group));
            let tokens = middle.push(ids.last());
            assert(middle.drop_last() =~= head);
            assert(tokens.drop_last() =~= middle);
            assert(join_tokens(middle) == join_tokens(head) + separator() + denominator(
                is_object_group,
            ));
            assert(join_tokens(tokens) == join_tokens(middle) + separator() + ids.last());
        } else {
            let tokens = head.push(ids.last());
            assert(tokens.drop_last() =~= head);
            assert(join_tokens(tokens) == join_tokens(head) + separator() + ids.last());
        }
    }
}

/// Among the tokens of a chain the denominator chosen by the flag occurs
/// exactly if the chain has three ids or more, and it then stands right
/// behind the collection id; the other denominator does not occur. Left out
/// are the chains in which an id is itself the other denominator, and the
/// chains of less than three ids in which an id is itself the chosen one.
pub proof fn lemma_denominator_marks_third_id(ids: Seq<Seq<char>>, is_object_group: bool)
    requires
        forall|i: int| 0 <= i < ids.len() ==> #[trigger] ids[i] != denominator(!is_object_group),
        ids.len() < 3 ==> forall|i: int|
            0 <= i < ids.len() ==> #[trigger] ids[i] != denominator(is_object_group),
    ensures
        chain_tokens(ids, is_object_group).contains(denominator(is_object_group)) == (ids.len()
            >= 3),
        !chain_tokens(ids, is_object_group).contains(denominator(!is_object_group)),
        ids.len() >= 3 ==> chain_tokens(ids, is_object_group)[3] == denominator(is_object_group),
{
    reveal_strlit("UPDATES.STORAGE");
    reveal_strlit("OBJECT");
    reveal_strlit("OBJECTGROUP");
    lemma_chain_tokens_layout(ids, is_object_group);
    let tokens = chain_tokens(ids, is_object_group);
    assert(common_prefix().len() == 15);
    assert(denominator(true).len() == 11);
    assert(denominator(false).len() == 6);
    assert forall|i: int| 0 <= i < tokens.len() && i != 3 implies #[trigger] tokens[i]
        != denominator(!is_object_group) && (ids.len() < 3 ==> tokens[i] != denominator(
        is_object_group,
    )) by {
        if 1 <= i <= 2 {
            assert(tokens[i] == ids[i - 1]);
        } else if i >= 4 {
            assert(tokens[i] == ids[i - 2]);
        }
    }
    if ids.len() >= 3 {
        assert(tokens[3] == denominator(is_object_group));
    } else if tokens.len() > 3 {
        assert(false);
    }
}

/// In the subject of a chain of three ids or more the denominator chosen by
/// the flag stands written out, with a separator on either side.
pub proof fn lemma_denominator_is_written(ids: Seq<Seq<char>>, is_object_group: bool)
    requires
        ids.len() >= 3,
    ensures
        occurs_in(
            base_subject_of(ids, is_object_group),
            separator() + denominator(is_object_group) + separator(),
        ),
        occurs_in(
            subject_of(ids, is_object_group),
            separator() + denominator(is_object_group) + separator(),
        ),
    decreases ids.len(),
{
    let marker = separator() + denominator(is_object_group) + separator();
    let base = base_subject_of(ids, is_object_group);
    let head = base_subject_of(ids.drop_last(), is_object_group);
    if ids.len() == 3 {
        let at = head.len() as int;
        assert(base.subrange(at, at + marker.len()) =~= marker);
    } else {
        lemma_denominator_is_written(ids.drop_last(), is_object_group);
        let at = choose|at: int|
            0 <= at <= head.len() - marker.len() && #[trigger] head.subrange(
                at,
                at + marker.len(),
            ) == marker;
        assert(base.subrange(at, at + marker.len()) =~= head.subrange(at, at + marker.len()));
    }
    let at = choose|at: int|
        0 <= at <= base.len() - marker.len() && #[trigger] base.subrange(at, at + marker.len())
            == marker;
    let subject = subject_of(ids, is_object_group);
    assert(subject.subrange(at, at + marker.len()) =~= base.subrange(at, at + marker.len()));
}

/// The subject of a project or of a collection holds no denominator token,
/// provided its ids are not themselves denominators.
pub proof fn lemma_upper_levels_without_denominator(ids: Seq<Seq<char>>, is_object_group: bool)
    requires
        ids.len() <= 2,
        forall|i: int| 0 <= i < ids.len() ==> !is_denominator(#[trigger] ids[i]),
    ensures
        subject_of(ids, is_object_group) == join_tokens(chain_tokens(ids, is_object_group))
            + leaf_terminator(),
        forall|i: int|
            0 <= i < chain_tokens(ids, is_object_group).len() ==> !is_denominator(
                #[trigger] chain_tokens(ids, is_object_group)[i],
            ),
{
    reveal_strlit("UPDATES.STORAGE");
    reveal_strlit("OBJECT");
    reveal_strlit("OBJECTGROUP");
    lemma_base_subject_joins_tokens(ids, is_object_group);
    lemma_chain_tokens_layout(ids, is_object_group);
    let tokens = chain_tokens(ids, is_object_group);
    assert(common_prefix().len() == 15);
    assert(denominator(true).len() == 11);
    assert(denominator(false).len() == 6);
    assert forall|i: int| 0 <= i < tokens.len() implies !is_denominator(#[trigger] tokens[i]) by {
        if 1 <= i <= 2 {
            assert(tokens[i] == ids[i - 1]);
        }
    }
}

} // verus!
