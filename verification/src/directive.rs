//! Reading the directives of a creation command.
//!
//! The reader takes one token at a time and hands out each mapping as soon
//! as it is complete, so that the caller can write its entries before the
//! next token is read. What the reader does is fixed by the grammar; this
//! module adds the compiled sources that the mappings carry.

use vstd::prelude::*;
use vstd::string::*;
use crate::error::ArchiveError;
use crate::grammar::{
    flush, initial, keyword_of, opened_by, opens_pattern, plan, run, run_one_more,
    run_refusal_is_final, step, Keyword, MappingModel, StateModel,
};
use crate::pattern::{glob_patterns, patterns_of, Source};
use crate::text::{spells_word, texts};

verus! {

/// A complete mapping: the compiled sources of one group and the rename
/// target of their matches.
#[derive(Debug)]
pub struct Mapping {
    /// The sources of the group, in the order of their tokens.
    pub sources: Vec<Source>,
    /// Where the matches go; `None` where they keep their own paths.
    pub destination: Option<String>,
}

impl View for Mapping {
    type V = MappingModel;

    open spec fn view(&self) -> MappingModel {
        MappingModel {
            patterns: patterns_of(self.sources@),
            destination: match self.destination {
                Some(target) => Some(target@),
                None => None,
            },
        }
    }
}

/// The reader's state between two tokens.
#[derive(Debug)]
pub enum DirectiveState {
    /// No group is pending. `accumulating` records a `from` that the next
    /// group will inherit.
    Idle { accumulating: bool },
    /// A group is pending. While `accumulating`, further sources join it.
    Pending { group: Vec<Source>, accumulating: bool },
    /// A `to` was read: the next token is the rename target of the group.
    AwaitingTarget { group: Vec<Source> },
}

impl View for DirectiveState {
    type V = StateModel;

    open spec fn view(&self) -> StateModel {
        match self {
            DirectiveState::Idle { accumulating } => StateModel::Idle {
                accumulating: *accumulating,
            },
            DirectiveState::Pending { group, accumulating } => StateModel::Pending {
                patterns: patterns_of(group@),
                accumulating: *accumulating,
            },
            DirectiveState::AwaitingTarget { group } => StateModel::AwaitingTarget {
                patterns: patterns_of(group@),
            },
        }
    }
}

/// The model of an optional mapping.
pub open spec fn output_view(out: Option<Mapping>) -> Option<MappingModel> {
    match out {
        Some(mapping) => Some(mapping@),
        None => None,
    }
}

/// The model of the result of one step.
pub open spec fn step_view(r: Result<(DirectiveState, Option<Mapping>), ArchiveError>) -> Result<
    (StateModel, Option<MappingModel>),
    ArchiveError,
> {
    match r {
        Ok((next, out)) => Ok((next@, output_view(out))),
        Err(e) => Err(e),
    }
}

/// The model of an optional source.
pub open spec fn source_view(opened: Option<Source>) -> Option<Seq<char>> {
    match opened {
        Some(source) => Some(source@),
        None => None,
    }
}

/// The models of a list of mappings.
pub open spec fn mappings_view(mappings: Seq<Mapping>) -> Seq<MappingModel> {
    Seq::new(mappings.len(), |i: int| mappings[i]@)
}

/// The model of a plan or of its refusal.
pub open spec fn plan_view(r: Result<Vec<Mapping>, ArchiveError>) -> Result<
    Seq<MappingModel>,
    ArchiveError,
> {
    match r {
        Ok(mappings) => Ok(mappings_view(mappings@)),
        Err(e) => Err(e),
    }
}

/// Tells the keywords from the patterns.
pub fn keyword(token: &str) -> (r: Option<Keyword>)
    ensures
        r == keyword_of(token@),
{
    if spells_word(token, "from") {
        Some(Keyword::From)
    } else if spells_word(token, "to") {
        Some(Keyword::To)
    } else {
        None
    }
}

/// A group of one source.
fn group_of(source: Source) -> (group: Vec<Source>)
    ensures
        patterns_of(group@) == seq![source@],
{
    let mut group: Vec<Source> = Vec::new();
    group.push(source);
    assert(patterns_of(group@) =~= seq![source@]);
    group
}

impl DirectiveState {
    /// The state before the first token.
    pub fn new() -> (r: DirectiveState)
        ensures
            r@ == initial(),
    {
        DirectiveState::Idle { accumulating: false }
    }

    /// Whether `token`, read in this state, has to be compiled.
    pub fn opens(&self, token: &str) -> (r: bool)
        ensures
            r == opens_pattern(self@, token@),
    {
        match keyword(token) {
            Some(_) => false,
            None => match self {
                DirectiveState::AwaitingTarget { .. } => false,
                _ => true,
            },
        }
    }

    /// Reads `token`, given the source that was compiled for it. Where the
    /// token is no pattern, `opened` is not looked at.
    pub fn transition(self, token: &str, opened: Option<Source>) -> (r: Result<
        (DirectiveState, Option<Mapping>),
        ArchiveError,
    >)
        ensures
            step_view(r) == step(self@, token@, source_view(opened)),
    {
        let word = keyword(token);
        match self {
            DirectiveState::Idle { accumulating } => match word {
                Some(Keyword::From) => Ok((DirectiveState::Idle { accumulating: true }, None)),
                Some(Keyword::To) => Err(ArchiveError::MalformedDirectives),
                None => match opened {
                    Some(source) => Ok(
                        (DirectiveState::Pending { group: group_of(source), accumulating }, None),
                    ),
                    None => Err(ArchiveError::MalformedDirectives),
                },
            },
            DirectiveState::Pending { group, accumulating } => match word {
                Some(Keyword::From) => Ok(
                    (DirectiveState::Pending { group, accumulating: true }, None),
                ),
                Some(Keyword::To) => Ok((DirectiveState::AwaitingTarget { group }, None)),
                None => match opened {
                    Some(source) => {
                        if accumulating {
                            let mut group = group;
                            let ghost before = group@;
                            group.push(source);
                            assert(patterns_of(group@) =~= patterns_of(before).push(source@));
                            Ok((DirectiveState::Pending { group, accumulating: true }, None))
                        } else {
                            let complete = Mapping { sources: group, destination: None };
                            let next = DirectiveState::Pending {
                                group: group_of(source),
                                accumulating: false,
                            };
                            Ok((next, Some(complete)))
                        }
                    },
                    None => Err(ArchiveError::MalformedDirectives),
                },
            },
            DirectiveState::AwaitingTarget { group } => match word {
                Some(Keyword::From) => Ok((DirectiveState::AwaitingTarget { group }, None)),
                _ => {
                    let complete = Mapping {
                        sources: group,
                        destination: Some(String::from_str(token)),
                    };
                    Ok((DirectiveState::new(), Some(complete)))
                },
            },
        }
    }

    /// Reads `token`: compiles it where it is a pattern, then moves on.
    pub fn advance(self, token: &str) -> (r: Result<
        (DirectiveState, Option<Mapping>),
        ArchiveError,
    >)
        ensures
            step_view(r) == step(self@, token@, opened_by(glob_patterns(), token@)),
    {
        if self.opens(token) {
            match Source::open(token) {
                Ok(source) => self.transition(token, Some(source)),
                Err(_) => self.transition(token, None),
            }
        } else {
            self.transition(token, None)
        }
    }

    /// Ends the reading: hands out the group that is still pending.
    pub fn finish(self) -> (r: Option<Mapping>)
        ensures
            output_view(r) == flush(self@),
    {
        match self {
            DirectiveState::Idle { .. } => None,
            DirectiveState::Pending { group, .. } => Some(
                Mapping { sources: group, destination: None },
            ),
            DirectiveState::AwaitingTarget { group } => Some(
                Mapping { sources: group, destination: None },
            ),
        }
    }
}

/// Reads all of `tokens` and collects the mappings they describe. The
/// first token that is refused ends the reading.
pub fn resolve_directives(tokens: &Vec<String>) -> (r: Result<Vec<Mapping>, ArchiveError>)
    ensures
        plan_view(r) == plan(texts(tokens@), glob_patterns()),
{
    let ghost all = texts(tokens@);
    let mut state = DirectiveState::new();
    let mut done: Vec<Mapping> = Vec::new();
    let mut i: usize = 0;
    assert(all.take(0) =~= Seq::<Seq<char>>::empty());
    assert(mappings_view(done@) =~= Seq::<MappingModel>::empty());
    while i < tokens.len()
        invariant
            i <= tokens.len(),
            all == texts(tokens@),
            run(initial(), all.take(i as int), glob_patterns()) == Ok::<_, ArchiveError>(
                (state@, mappings_view(done@)),
            ),
        decreases tokens.len() - i,
    {
        let ghost before = mappings_view(done@);
        proof {
            run_one_more(initial(), all.take(i as int), all[i as int], glob_patterns());
            assert(all.take(i as int).push(all[i as int]) =~= all.take(i + 1));
        }
        match state.advance(tokens[i].as_str()) {
            Err(e) => {
                proof {
                    run_refusal_is_final(initial(), all, i + 1, glob_patterns());
                }
                return Err(e);
            },
            Ok((next, out)) => {
                state = next;
                match out {
                    Some(mapping) => {
                        done.push(mapping);
                        assert(mappings_view(done@) =~= before.push(mapping@));
                    },
                    None => {},
                }
            },
        }
        i += 1;
    }
    assert(all.take(i as int) =~= all);
    let ghost before = mappings_view(done@);
    match state.finish() {
        Some(mapping) => {
            done.push(mapping);
            assert(mappings_view(done@) =~= before.push(mapping@));
        },
        None => {},
    }
    Ok(done)
}

} // verus!
