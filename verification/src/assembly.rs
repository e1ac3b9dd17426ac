//! Reconstruction of one wire problem from a finite sequence of tagged
//! fragments.
//!
//! Fragments of different tags may arrive in any relative order; only
//! the order of fragments of one repeatable tag (variables,
//! constraints) is significant.  Singleton tags (metadata,
//! configuration, objective) follow a last-write-wins rule.  The
//! assembler performs no validation: it only accumulates fragments into
//! slots and builds the wire problem when the stream ends.  A stream
//! that was interrupted before completion yields `StreamError::Truncated`
//! and no problem.

use vstd::prelude::*;

use vstd::pervasive::arbitrary;

use crate::wire::WireConstraint;
use crate::wire::WireObjective;
use crate::wire::WireProblem;
use crate::wire::WireSolverConfig;
use crate::wire::WireVariable;

verus! {

/// One tagged fragment of a streamed problem.
#[derive(Debug, Clone, PartialEq)]
pub enum ProblemChunk {
    /// Problem name and description; singleton, last write wins.
    Metadata {
        /// Name of the problem.
        problem_name: String,
        /// Description of the problem.
        description: String,
    },
    /// Solver configuration; singleton, last write wins.
    SolverConfig(WireSolverConfig),
    /// One variable; repeatable, appended in arrival order.
    Variable(WireVariable),
    /// One constraint; repeatable, appended in arrival order.
    Constraint(WireConstraint),
    /// The objective; singleton, last write wins.
    Objective(WireObjective),
}

/// Failure of a fragment stream.
#[derive(Debug, Clone, Copy, PartialEq, Eq, Structural)]
pub enum StreamError {
    /// The stream was interrupted before completion; the partial
    /// problem is discarded.
    Truncated,
}

/// The tag of a fragment.
#[derive(Debug, Clone, Copy, PartialEq, Eq, Structural)]
pub enum ChunkTag {
    /// Tag of `ProblemChunk::Metadata`.
    Metadata,
    /// Tag of `ProblemChunk::SolverConfig`.
    SolverConfig,
    /// Tag of `ProblemChunk::Variable`.
    Variable,
    /// Tag of `ProblemChunk::Constraint`.
    Constraint,
    /// Tag of `ProblemChunk::Objective`.
    Objective,
}

/// The tag of a fragment.
pub open spec fn chunk_tag(c: ProblemChunk) -> ChunkTag {
    match c {
        ProblemChunk::Metadata { .. } => ChunkTag::Metadata,
        ProblemChunk::SolverConfig(..) => ChunkTag::SolverConfig,
        ProblemChunk::Variable(..) => ChunkTag::Variable,
        ProblemChunk::Constraint(..) => ChunkTag::Constraint,
        ProblemChunk::Objective(..) => ChunkTag::Objective,
    }
}

/// The subsequence of fragments carrying the given tag, in arrival
/// order.
pub open spec fn chunks_of_tag(s: Seq<ProblemChunk>, t: ChunkTag) -> Seq<ProblemChunk>
    decreases s.len(),
{
    if s.len() == 0 {
        Seq::<ProblemChunk>::empty()
    } else {
        chunks_of_tag(s.drop_last(), t) + if chunk_tag(s.last()) == t {
            seq![s.last()]
        } else {
            Seq::<ProblemChunk>::empty()
        }
    }
}

/// Payload of a variable fragment.
pub open spec fn variable_payload(c: ProblemChunk) -> WireVariable {
    match c {
        ProblemChunk::Variable(v) => v,
        _ => arbitrary(),
    }
}

/// Payload of a constraint fragment.
pub open spec fn constraint_payload(c: ProblemChunk) -> WireConstraint {
    match c {
        ProblemChunk::Constraint(v) => v,
        _ => arbitrary(),
    }
}

/// Payload of an objective fragment.
pub open spec fn objective_payload(c: ProblemChunk) -> WireObjective {
    match c {
        ProblemChunk::Objective(v) => v,
        _ => arbitrary(),
    }
}

/// Payload of a configuration fragment.
pub open spec fn config_payload(c: ProblemChunk) -> WireSolverConfig {
    match c {
        ProblemChunk::SolverConfig(v) => v,
        _ => arbitrary(),
    }
}

/// Name-and-description payload of a metadata fragment.
pub open spec fn metadata_payload(c: ProblemChunk) -> (String, String) {
    match c {
        ProblemChunk::Metadata { problem_name, description } => (problem_name, description),
        _ => arbitrary(),
    }
}

/// The variables carried by the stream, in arrival order.
pub open spec fn assembled_variables(s: Seq<ProblemChunk>) -> Seq<WireVariable> {
    chunks_of_tag(s, ChunkTag::Variable).map_values(|c: ProblemChunk| variable_payload(c))
}

/// The constraints carried by the stream, in arrival order.
pub open spec fn assembled_constraints(s: Seq<ProblemChunk>) -> Seq<WireConstraint> {
    chunks_of_tag(s, ChunkTag::Constraint).map_values(|c: ProblemChunk| constraint_payload(c))
}

/// The objective slot after the stream: the payload of the last
/// objective fragment, if any.
pub open spec fn assembled_objective(s: Seq<ProblemChunk>) -> Option<WireObjective> {
    let cs = chunks_of_tag(s, ChunkTag::Objective);
    if cs.len() == 0 {
        None
    } else {
        Some(objective_payload(cs.last()))
    }
}

/// The configuration slot after the stream: the payload of the last
/// configuration fragment, if any.
pub open spec fn assembled_config(s: Seq<ProblemChunk>) -> Option<WireSolverConfig> {
    let cs = chunks_of_tag(s, ChunkTag::SolverConfig);
    if cs.len() == 0 {
        None
    } else {
        Some(config_payload(cs.last()))
    }
}

/// The metadata slot after the stream: the payload of the last
/// metadata fragment, if any.
pub open spec fn assembled_metadata(s: Seq<ProblemChunk>) -> Option<(String, String)> {
    let cs = chunks_of_tag(s, ChunkTag::Metadata);
    if cs.len() == 0 {
        None
    } else {
        Some(metadata_payload(cs.last()))
    }
}

/// Whether the name and description slots hold the given metadata:
/// empty strings where no metadata fragment arrived.
pub open spec fn metadata_matches(
    problem_name: String,
    description: String,
    m: Option<(String, String)>,
) -> bool {
    match m {
        None => problem_name@ == Seq::<char>::empty() && description@ == Seq::<char>::empty(),
        Some(p) => problem_name == p.0 && description == p.1,
    }
}

/// Whether `w` is exactly the wire problem assembled from the stream
/// `s`.
pub open spec fn is_assembled_problem(w: WireProblem, s: Seq<ProblemChunk>) -> bool {
    &&& w.objective == assembled_objective(s)
    &&& w.variables@ == assembled_variables(s)
    &&& w.constraints@ == assembled_constraints(s)
    &&& w.solver_config == assembled_config(s)
    &&& metadata_matches(w.problem_name, w.description, assembled_metadata(s))
}

/// Accumulates tagged fragments into slots; `finish` builds the wire
/// problem from whatever slots were populated.
pub struct ChunkAssembler {
    objective: Option<WireObjective>,
    constraints: Vec<WireConstraint>,
    variables: Vec<WireVariable>,
    solver_config: Option<WireSolverConfig>,
    problem_name: String,
    description: String,
    history: Ghost<Seq<ProblemChunk>>,
}

impl ChunkAssembler {
    /// The fragments consumed so far, in arrival order.
    pub closed spec fn consumed(self) -> Seq<ProblemChunk> {
        self.history@
    }

    /// The slots hold exactly the accumulation of the consumed
    /// fragments.
    pub closed spec fn wf(self) -> bool {
        &&& self.objective == assembled_objective(self.history@)
        &&& self.variables@ == assembled_variables(self.history@)
        &&& self.constraints@ == assembled_constraints(self.history@)
        &&& self.solver_config == assembled_config(self.history@)
        &&& metadata_matches(
            self.problem_name,
            self.description,
            assembled_metadata(self.history@),
        )
    }

    /// An assembler that has consumed nothing.
    pub fn new() -> (r: ChunkAssembler)
        ensures
            r.wf(),
            r.consumed() == Seq::<ProblemChunk>::empty(),
    {
        let r = ChunkAssembler {
            objective: None,
            constraints: Vec::new(),
            variables: Vec::new(),
            solver_config: None,
            problem_name: String::new(),
            description: String::new(),
            history: Ghost(Seq::empty()),
        };
        proof {
            assert(chunks_of_tag(r.history@, ChunkTag::Objective) =~= Seq::<
                ProblemChunk,
            >::empty());
            assert(chunks_of_tag(r.history@, ChunkTag::Variable) =~= Seq::<ProblemChunk>::empty());
            assert(chunks_of_tag(r.history@, ChunkTag::Constraint) =~= Seq::<
                ProblemChunk,
            >::empty());
            assert(chunks_of_tag(r.history@, ChunkTag::SolverConfig) =~= Seq::<
                ProblemChunk,
            >::empty());
            assert(chunks_of_tag(r.history@, ChunkTag::Metadata) =~= Seq::<ProblemChunk>::empty());
            assert(assembled_variables(r.history@) =~= Seq::<WireVariable>::empty());
            assert(assembled_constraints(r.history@) =~= Seq::<WireConstraint>::empty());
        }
        r
    }

    /// Consumes one fragment: appends a repeatable fragment to its
    /// slot, overwrites the slot of a singleton fragment.
    pub fn push(&mut self, chunk: ProblemChunk)
        requires
            old(self).wf(),
        ensures
            final(self).wf(),
            final(self).consumed() == old(self).consumed().push(chunk),
    {
        proof {
            let h = self.history@;
            let h2 = h.push(chunk);
            assert(h2.drop_last() =~= h);
            assert(h2.last() == chunk);
        }
        let ghost old_history = self.history@;
        self.history = Ghost(self.history@.push(chunk));
        match chunk {
            ProblemChunk::Metadata { problem_name, description } => {
                self.problem_name = problem_name;
                self.description = description;
                proof {
                    assert(assembled_variables(self.history@) =~= assembled_variables(
                        old_history,
                    ));
                    assert(assembled_constraints(self.history@) =~= assembled_constraints(
                        old_history,
                    ));
                }
            },
            ProblemChunk::SolverConfig(c) => {
                self.solver_config = Some(c);
                proof {
                    assert(assembled_variables(self.history@) =~= assembled_variables(
                        old_history,
                    ));
                    assert(assembled_constraints(self.history@) =~= assembled_constraints(
                        old_history,
                    ));
                }
            },
            ProblemChunk::Variable(v) => {
                self.variables.push(v);
                proof {
                    assert(assembled_variables(self.history@) =~= assembled_variables(
                        old_history,
                    ).push(variable_payload(self.history@.last())));
                    assert(assembled_constraints(self.history@) =~= assembled_constraints(
                        old_history,
                    ));
                }
            },
            ProblemChunk::Constraint(c) => {
                self.constraints.push(c);
                proof {
                    assert(assembled_constraints(self.history@) =~= assembled_constraints(
                        old_history,
                    ).push(constraint_payload(self.history@.last())));
                    assert(assembled_variables(self.history@) =~= assembled_variables(
                        old_history,
                    ));
                }
            },
            ProblemChunk::Objective(o) => {
                self.objective = Some(o);
                proof {
                    assert(assembled_variables(self.history@) =~= assembled_variables(
                        old_history,
                    ));
                    assert(assembled_constraints(self.history@) =~= assembled_constraints(
                        old_history,
                    ));
                }
            },
        }
    }

    /// Ends the stream and builds the wire problem from the populated
    /// slots, leaving unset singleton slots empty or default.
    pub fn finish(self) -> (w: WireProblem)
        requires
            self.wf(),
        ensures
            is_assembled_problem(w, self.consumed()),
    {
        WireProblem {
            objective: self.objective,
            constraints: self.constraints,
            variables: self.variables,
            solver_config: self.solver_config,
            problem_name: self.problem_name,
            description: self.description,
        }
    }
}

/// Assembles a completed stream of fragments into one wire problem.
///
/// `complete` reports whether the transport delivered the stream to
/// its end; an interrupted stream is rejected as truncated and the
/// partial problem is discarded.
pub fn assemble_stream(chunks: Vec<ProblemChunk>, complete: bool) -> (r: Result<
    WireProblem,
    StreamError,
>)
    ensures
        r is Ok <==> complete,
        r matches Ok(w) ==> is_assembled_problem(w, chunks@),
        !complete ==> r == Err::<WireProblem, StreamError>(StreamError::Truncated),
{
    if !complete {
        return Err(StreamError::Truncated);
    }
    let ghost all = chunks@;
    let mut assembler = ChunkAssembler::new();
    let mut rest = chunks;
    while rest.len() > 0
        invariant
            assembler.wf(),
            assembler.consumed() + rest@ == all,
        decreases rest@.len(),
    {
        let c = rest.remove(0);
        assembler.push(c);
        proof {
            assert(assembler.consumed() + rest@ =~= all);
        }
    }
    proof {
        assert(assembler.consumed() =~= all);
    }
    Ok(assembler.finish())
}

/// Exchanging two adjacent fragments of different tags leaves every
/// tag projection of the stream unchanged.
///
/// Together with `is_assembled_problem`, this states that only the
/// relative order of fragments of one tag is significant: any
/// cross-tag reordering of a stream (a composition of such adjacent
/// exchanges) assembles to the same wire problem.
pub proof fn lemma_swap_adjacent_preserves_projections(s: Seq<ProblemChunk>, i: int, t: ChunkTag)
    requires
        0 <= i,
        i + 1 < s.len(),
        chunk_tag(s[i]) != chunk_tag(s[i + 1]),
    ensures
        chunks_of_tag(s.update(i, s[i + 1]).update(i + 1, s[i]), t) == chunks_of_tag(s, t),
    decreases s.len(),
{
    let s2 = s.update(i, s[i + 1]).update(i + 1, s[i]);
    if i + 1 == s.len() - 1 {
        let prefix = s.drop_last().drop_last();
        assert(s.drop_last() =~= prefix.push(s[i]));
        assert(s2.drop_last() =~= prefix.push(s[i + 1]));
        assert(s2.drop_last().drop_last() =~= prefix);
        assert(s.drop_last().drop_last() =~= prefix);
        assert(s.drop_last().last() == s[i]);
        assert(s2.drop_last().last() == s[i + 1]);
        assert(s.last() == s[i + 1]);
        assert(s2.last() == s[i]);
        let pa: Seq<ProblemChunk> = if chunk_tag(s[i]) == t {
            seq![s[i]]
        } else {
            Seq::empty()
        };
        let pb: Seq<ProblemChunk> = if chunk_tag(s[i + 1]) == t {
            seq![s[i + 1]]
        } else {
            Seq::empty()
        };
        assert(chunks_of_tag(s.drop_last(), t) =~= chunks_of_tag(prefix, t) + pa);
        assert(chunks_of_tag(s, t) =~= chunks_of_tag(prefix, t) + pa + pb);
        assert(chunks_of_tag(s2.drop_last(), t) =~= chunks_of_tag(prefix, t) + pb);
        assert(chunks_of_tag(s2, t) =~= chunks_of_tag(prefix, t) + pb + pa);
        // At most one of the two exchanged fragments carries tag `t`,
        // so the appended parts commute.
        assert(pa + pb =~= pb + pa);
        assert(chunks_of_tag(s2, t) =~= chunks_of_tag(s, t));
    } else {
        lemma_swap_adjacent_preserves_projections(s.drop_last(), i, t);
        assert(s2.drop_last() =~= s.drop_last().update(i, s[i + 1]).update(i + 1, s[i]));
        assert(s2.last() == s.last());
        assert(chunks_of_tag(s2, t) =~= chunks_of_tag(s, t));
    }
}

/// Streams with equal tag projections assemble to the same wire
/// problem: every component of the assembled problem is a function of
/// the five projections alone.
pub proof fn lemma_equal_projections_equal_assembly(
    w1: WireProblem,
    w2: WireProblem,
    s1: Seq<ProblemChunk>,
    s2: Seq<ProblemChunk>,
)
    requires
        is_assembled_problem(w1, s1),
        is_assembled_problem(w2, s2),
        forall|t: ChunkTag| chunks_of_tag(s1, t) == chunks_of_tag(s2, t),
    ensures
        w1.objective == w2.objective,
        w1.variables@ == w2.variables@,
        w1.constraints@ == w2.constraints@,
        w1.solver_config == w2.solver_config,
        w1.problem_name@ == w2.problem_name@,
        w1.description@ == w2.description@,
{
    assert(chunks_of_tag(s1, ChunkTag::Variable) == chunks_of_tag(s2, ChunkTag::Variable));
    assert(chunks_of_tag(s1, ChunkTag::Constraint) == chunks_of_tag(s2, ChunkTag::Constraint));
    assert(chunks_of_tag(s1, ChunkTag::Objective) == chunks_of_tag(s2, ChunkTag::Objective));
    assert(chunks_of_tag(s1, ChunkTag::SolverConfig) == chunks_of_tag(s2, ChunkTag::SolverConfig));
    assert(chunks_of_tag(s1, ChunkTag::Metadata) == chunks_of_tag(s2, ChunkTag::Metadata));
}

} // verus!
