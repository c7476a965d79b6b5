//! The grammar of the directives of a creation command.
//!
//! The tokens behind the archive path are source patterns mixed with the
//! keywords `from` and `to`. Reading them left to right yields mappings:
//! groups of source patterns, each with an optional rename target. This
//! module says, over plain sequences of characters, which mappings a
//! sequence of tokens describes, and proves what follows from that.

use vstd::prelude::*;
use crate::error::ArchiveError;
use crate::text::spells;

verus! {

/// The two words that are not patterns.
#[derive(Clone, Copy, PartialEq, Eq, Debug, Structural)]
pub enum Keyword {
    /// `from`: the patterns that follow join one group.
    From,
    /// `to`: the next token is the rename target of the pending group.
    To,
}

/// The keyword that a token spells, in any mix of upper and lower case.
pub open spec fn keyword_of(token: Seq<char>) -> Option<Keyword> {
    if spells(token, "from"@) {
        Some(Keyword::From)
    } else if spells(token, "to"@) {
        Some(Keyword::To)
    } else {
        None
    }
}

/// A group of source patterns and where its matches go.
pub ghost struct MappingModel {
    /// The patterns of the group, in the order of their tokens.
    pub patterns: Seq<Seq<char>>,
    /// Where the matches go; `None` where they keep their own paths.
    pub destination: Option<Seq<char>>,
}

/// What has been read and not yet handed out.
pub ghost enum StateModel {
    /// No group is pending. `accumulating` records a `from` that the next
    /// group will inherit.
    Idle { accumulating: bool },
    /// A group is pending. While `accumulating`, further patterns join it.
    Pending { patterns: Seq<Seq<char>>, accumulating: bool },
    /// A `to` was read: the next token is the rename target of the group.
    AwaitingTarget { patterns: Seq<Seq<char>> },
}

/// The state before the first token.
pub open spec fn initial() -> StateModel {
    StateModel::Idle { accumulating: false }
}

/// Whether reading `token` in state `s` compiles it as a pattern.
pub open spec fn opens_pattern(s: StateModel, token: Seq<char>) -> bool {
    keyword_of(token) is None && !(s is AwaitingTarget)
}

/// One step of the grammar: the state after `token` and the mapping that
/// the token completes, if any. `opened` is the pattern of the source that
/// was compiled for the token, or `None` where none could be.
///
/// - `from` turns accumulation on. While a target is awaited it changes
///   nothing, and it is never taken for the target.
/// - `to` with a group pending awaits the target, and ends accumulation.
///   `to` with no group pending is malformed.
/// - While a target is awaited, any token but `from` is the target, `to`
///   as well. The group goes out with it and the state starts afresh.
/// - A pattern joins the pending group while accumulating. Otherwise it
///   sends the pending group out without target and starts the next one.
///   With no group pending it starts one, which inherits an earlier `from`.
/// - A pattern that does not compile is malformed.
pub open spec fn step(s: StateModel, token: Seq<char>, opened: Option<Seq<char>>) -> Result<
    (StateModel, Option<MappingModel>),
    ArchiveError,
> {
    match s {
        StateModel::Idle { accumulating } => match keyword_of(token) {
            Some(Keyword::From) => Ok((StateModel::Idle { accumulating: true }, None)),
            Some(Keyword::To) => Err(ArchiveError::MalformedDirectives),
            None => match opened {
                Some(pattern) => Ok(
                    (StateModel::Pending { patterns: seq![pattern], accumulating }, None),
                ),
                None => Err(ArchiveError::MalformedDirectives),
            },
        },
        StateModel::Pending { patterns, accumulating } => match keyword_of(token) {
            Some(Keyword::From) => Ok(
                (StateModel::Pending { patterns, accumulating: true }, None),
            ),
            Some(Keyword::To) => Ok((StateModel::AwaitingTarget { patterns }, None)),
            None => match opened {
                Some(pattern) => if accumulating {
                    Ok(
                        (
                            StateModel::Pending {
                                patterns: patterns.push(pattern),
                                accumulating: true,
                            },
                            None,
                        ),
                    )
                } else {
                    Ok(
                        (
                            StateModel::Pending { patterns: seq![pattern], accumulating: false },
                            Some(MappingModel { patterns, destination: None }),
                        ),
                    )
                },
                None => Err(ArchiveError::MalformedDirectives),
            },
        },
        StateModel::AwaitingTarget { patterns } => match keyword_of(token) {
            Some(Keyword::From) => Ok((s, None)),
            _ => Ok((initial(), Some(MappingModel { patterns, destination: Some(token) }))),
        },
    }
}

/// What is left when the tokens end: a pending group goes out without
/// target, also where a target was awaited.
pub open spec fn flush(s: StateModel) -> Option<MappingModel> {
    match s {
        StateModel::Idle { .. } => None,
        StateModel::Pending { patterns, .. } => Some(
            MappingModel { patterns, destination: None },
        ),
        StateModel::AwaitingTarget { patterns } => Some(
            MappingModel { patterns, destination: None },
        ),
    }
}

/// `done` with `out` behind it, where there is one.
pub open spec fn with_output(done: Seq<MappingModel>, out: Option<MappingModel>) -> Seq<
    MappingModel,
> {
    match out {
        Some(mapping) => done.push(mapping),
        None => done,
    }
}

/// The pattern that is compiled for `token` where `accepts` decides which
/// patterns compile.
pub open spec fn opened_by(accepts: spec_fn(Seq<char>) -> bool, token: Seq<char>) -> Option<
    Seq<char>,
> {
    if accepts(token) {
        Some(token)
    } else {
        None
    }
}

/// Reads `tokens` from state `s`: the state behind the last token and the
/// mappings handed out on the way, in order; or the error of the first
/// token that is refused.
pub open spec fn run(s: StateModel, tokens: Seq<Seq<char>>, accepts: spec_fn(Seq<char>) -> bool)
    -> Result<(StateModel, Seq<MappingModel>), ArchiveError>
    decreases tokens.len(),
{
    if tokens.len() == 0 {
        Ok((s, Seq::empty()))
    } else {
        match run(s, tokens.drop_last(), accepts) {
            Err(e) => Err(e),
            Ok((mid, done)) => match step(mid, tokens.last(), opened_by(accepts, tokens.last())) {
                Err(e) => Err(e),
                Ok((next, out)) => Ok((next, with_output(done, out))),
            },
        }
    }
}

/// All the mappings that `tokens` describe, in the order in which they are
/// completed.
pub open spec fn plan(tokens: Seq<Seq<char>>, accepts: spec_fn(Seq<char>) -> bool) -> Result<
    Seq<MappingModel>,
    ArchiveError,
> {
    match run(initial(), tokens, accepts) {
        Err(e) => Err(e),
        Ok((last, done)) => Ok(with_output(done, flush(last))),
    }
}

/// Reading one more token is one more step.
pub proof fn run_one_more(
    s: StateModel,
    tokens: Seq<Seq<char>>,
    token: Seq<char>,
    accepts: spec_fn(Seq<char>) -> bool,
)
    ensures
        run(s, tokens.push(token), accepts) == match run(s, tokens, accepts) {
            Err(e) => Err(e),
            Ok((mid, done)) => match step(mid, token, opened_by(accepts, token)) {
                Err(e) => Err(e),
                Ok((next, out)) => Ok((next, with_output(done, out))),
            },
        },
{
    assert(tokens.push(token).drop_last() =~= tokens);
}

/// A refusal is final: once a prefix of the tokens is refused, so is the
/// whole.
pub proof fn run_refusal_is_final(
    s: StateModel,
    tokens: Seq<Seq<char>>,
    k: int,
    accepts: spec_fn(Seq<char>) -> bool,
)
    requires
        0 <= k <= tokens.len(),
        run(s, tokens.take(k), accepts) is Err,
    ensures
        run(s, tokens, accepts) == run(s, tokens.take(k), accepts),
    decreases tokens.len(),
{
    if k == tokens.len() {
        assert(tokens.take(k) =~= tokens);
    } else {
        assert(tokens.drop_last().take(k) =~= tokens.take(k));
        run_refusal_is_final(s, tokens.drop_last(), k, accepts);
    }
}

/// Whether every group that the state holds has at least one pattern.
pub open spec fn groups_filled(s: StateModel) -> bool {
    match s {
        StateModel::Idle { .. } => true,
        StateModel::Pending { patterns, .. } => patterns.len() > 0,
        StateModel::AwaitingTarget { patterns } => patterns.len() > 0,
    }
}

/// Whether every mapping of the list has at least one pattern.
pub open spec fn all_filled(mappings: Seq<MappingModel>) -> bool {
    forall|i: int| 0 <= i < mappings.len() ==> (#[trigger] mappings[i]).patterns.len() > 0
}

/// Reading from a state whose groups are filled leaves them filled, and
/// fills every mapping that goes out.
pub proof fn run_keeps_groups_filled(
    s: StateModel,
    tokens: Seq<Seq<char>>,
    accepts: spec_fn(Seq<char>) -> bool,
)
    requires
        groups_filled(s),
    ensures
        run(s, tokens, accepts) matches Ok((last, done)) ==> groups_filled(last) && all_filled(
            done,
        ),
    decreases tokens.len(),
{
    if tokens.len() > 0 {
        run_keeps_groups_filled(s, tokens.drop_last(), accepts);
    }
}

/// No mapping is empty: whatever the tokens, each mapping they describe
/// holds at least one source pattern.
pub proof fn mappings_hold_sources(tokens: Seq<Seq<char>>, accepts: spec_fn(Seq<char>) -> bool)
    ensures
        plan(tokens, accepts) matches Ok(mappings) ==> all_filled(mappings),
{
    run_keeps_groups_filled(initial(), tokens, accepts);
}

/// The mapping of a pattern that stands alone.
pub open spec fn alone(pattern: Seq<char>) -> MappingModel {
    MappingModel { patterns: seq![pattern], destination: None }
}

/// Patterns without keywords between them each form a mapping of their
/// own, in order, and keep their paths.
pub proof fn plain_patterns_stay_apart(tokens: Seq<Seq<char>>, accepts: spec_fn(Seq<char>) -> bool)
    requires
        forall|i: int| 0 <= i < tokens.len() ==> keyword_of(#[trigger] tokens[i]) is None,
        forall|i: int| 0 <= i < tokens.len() ==> accepts(#[trigger] tokens[i]),
    ensures
        plan(tokens, accepts) == Ok::<Seq<MappingModel>, ArchiveError>(
            Seq::new(tokens.len(), |i: int| alone(tokens[i])),
        ),
{
    plain_run(tokens, accepts);
    if tokens.len() > 0 {
        let n = tokens.len() as int;
        let head = Seq::new((n - 1) as nat, |i: int| alone(tokens[i]));
        assert(head.push(alone(tokens.last())) =~= Seq::new(tokens.len(), |i: int| alone(tokens[i])));
    } else {
        assert(Seq::<MappingModel>::empty() =~= Seq::new(tokens.len(), |i: int| alone(tokens[i])));
    }
}

/// Behind a run of plain patterns the last one is pending and the others
/// have gone out.
proof fn plain_run(tokens: Seq<Seq<char>>, accepts: spec_fn(Seq<char>) -> bool)
    requires
        forall|i: int| 0 <= i < tokens.len() ==> keyword_of(#[trigger] tokens[i]) is None,
        forall|i: int| 0 <= i < tokens.len() ==> accepts(#[trigger] tokens[i]),
    ensures
        tokens.len() == 0 ==> run(initial(), tokens, accepts) == Ok::<_, ArchiveError>(
            (initial(), Seq::<MappingModel>::empty()),
        ),
        tokens.len() > 0 ==> run(initial(), tokens, accepts) == Ok::<_, ArchiveError>(
            (
                StateModel::Pending { patterns: seq![tokens.last()], accumulating: false },
                Seq::new((tokens.len() - 1) as nat, |i: int| alone(tokens[i])),
            ),
        ),
    decreases tokens.len(),
{
    if tokens.len() > 0 {
        let front = tokens.drop_last();
        assert(forall|i: int| 0 <= i < front.len() ==> front[i] == tokens[i]);
        plain_run(front, accepts);
        let n = tokens.len() as int;
        let done = Seq::new((n - 1) as nat, |i: int| alone(tokens[i]));
        if front.len() == 0 {
            assert(done =~= Seq::<MappingModel>::empty());
        } else {
            let before = Seq::new((front.len() - 1) as nat, |i: int| alone(front[i]));
            assert(before.push(alone(front.last())) =~= done);
        }
    }
}

/// A pattern, `to`, a target and one more pattern make two mappings: the
/// first pattern goes to the target, the second keeps its own paths.
pub proof fn rename_then_plain(
    first: Seq<char>,
    to: Seq<char>,
    target: Seq<char>,
    second: Seq<char>,
    accepts: spec_fn(Seq<char>) -> bool,
)
    requires
        keyword_of(first) is None,
        keyword_of(to) == Some(Keyword::To),
        keyword_of(target) != Some(Keyword::From),
        keyword_of(second) is None,
        accepts(first),
        accepts(second),
    ensures
        plan(seq![first, to, target, second], accepts) == Ok::<Seq<MappingModel>, ArchiveError>(
            seq![
                MappingModel { patterns: seq![first], destination: Some(target) },
                MappingModel { patterns: seq![second], destination: None },
            ],
        ),
{
    let none = Seq::<Seq<char>>::empty();
    run_one_more(initial(), none, first, accepts);
    run_one_more(initial(), seq![first], to, accepts);
    run_one_more(initial(), seq![first, to], target, accepts);
    run_one_more(initial(), seq![first, to, target], second, accepts);
    assert(run(initial(), none, accepts) == Ok::<_, ArchiveError>(
        (initial(), Seq::<MappingModel>::empty()),
    ));
    assert(none.push(first) =~= seq![first]);
    assert(seq![first].push(to) =~= seq![first, to]);
    assert(seq![first, to].push(target) =~= seq![first, to, target]);
    assert(seq![first, to, target].push(second) =~= seq![first, to, target, second]);
    let renamed = MappingModel { patterns: seq![first], destination: Some(target) };
    let plain = MappingModel { patterns: seq![second], destination: None };
    assert(Seq::<MappingModel>::empty().push(renamed).push(plain) =~= seq![renamed, plain]);
}

/// A pattern, `from`, a second pattern, `to` and a target make one mapping:
/// both patterns, in order, go to the target.
pub proof fn from_merges_sources(
    first: Seq<char>,
    from: Seq<char>,
    second: Seq<char>,
    to: Seq<char>,
    target: Seq<char>,
    accepts: spec_fn(Seq<char>) -> bool,
)
    requires
        keyword_of(first) is None,
        keyword_of(from) == Some(Keyword::From),
        keyword_of(second) is None,
        keyword_of(to) == Some(Keyword::To),
        keyword_of(target) != Some(Keyword::From),
        accepts(first),
        accepts(second),
    ensures
        plan(seq![first, from, second, to, target], accepts) == Ok::<Seq<MappingModel>, ArchiveError>(
            seq![MappingModel { patterns: seq![first, second], destination: Some(target) }],
        ),
{
    let none = Seq::<Seq<char>>::empty();
    run_one_more(initial(), none, first, accepts);
    run_one_more(initial(), seq![first], from, accepts);
    run_one_more(initial(), seq![first, from], second, accepts);
    run_one_more(initial(), seq![first, from, second], to, accepts);
    run_one_more(initial(), seq![first, from, second, to], target, accepts);
    assert(run(initial(), none, accepts) == Ok::<_, ArchiveError>(
        (initial(), Seq::<MappingModel>::empty()),
    ));
    assert(none.push(first) =~= seq![first]);
    assert(seq![first].push(from) =~= seq![first, from]);
    assert(seq![first, from].push(second) =~= seq![first, from, second]);
    assert(seq![first, from, second].push(to) =~= seq![first, from, second, to]);
    assert(seq![first, from, second, to].push(target) =~= seq![first, from, second, to, target]);
    assert(seq![first].push(second) =~= seq![first, second]);
    let only = MappingModel { patterns: seq![first, second], destination: Some(target) };
    assert(Seq::<MappingModel>::empty().push(only) =~= seq![only]);
}

} // verus!
