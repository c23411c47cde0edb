//! Qualification of decoded creation events into armed trade candidates.

use vstd::prelude::*;

use crate::clock::{is_clock_reading, unix_time_nanos};
use crate::text::{abbreviate, can_abbreviate, option_view, spec_abbreviate, strings_view};
use vstd::utf8::encode_utf8;
use crate::decoder::{DecodeConfidence, DecodedEventKind, DecodedMayhemEvent, MayhemStatus};

verus! {

/// The verdict on a candidate.
#[derive(Debug, Clone, Copy, PartialEq, Eq, Structural)]
pub enum CandidateDecisionKind {
    Accepted,
    Rejected,
    Ignored,
}

impl CandidateDecisionKind {
    pub fn as_str(&self) -> (r: &'static str)
        ensures
            r@ == (match self {
                CandidateDecisionKind::Accepted => "accepted"@,
                CandidateDecisionKind::Rejected => "rejected"@,
                CandidateDecisionKind::Ignored => "ignored"@,
            }),
    {
        match self {
            CandidateDecisionKind::Accepted => "accepted",
            CandidateDecisionKind::Rejected => "rejected",
            CandidateDecisionKind::Ignored => "ignored",
        }
    }
}

/// Why a candidate got its verdict.
#[derive(Debug, Clone, Copy, PartialEq, Eq, Structural)]
pub enum CandidateDecisionReason {
    Qualified,
    MissingMint,
    NotCreation,
    NotFirstSeen,
    MayhemNotOn,
    DecodeConfidenceTooLow,
    AlreadyArmed,
}

impl CandidateDecisionReason {
    pub fn as_str(&self) -> (r: &'static str)
        ensures
            r@ == (match self {
                CandidateDecisionReason::Qualified => "qualified"@,
                CandidateDecisionReason::MissingMint => "missing_mint"@,
                CandidateDecisionReason::NotCreation => "not_creation"@,
                CandidateDecisionReason::NotFirstSeen => "not_first_seen"@,
                CandidateDecisionReason::MayhemNotOn => "mayhem_not_on"@,
                CandidateDecisionReason::DecodeConfidenceTooLow => "decode_confidence_too_low"@,
                CandidateDecisionReason::AlreadyArmed => "already_armed"@,
            }),
    {
        match self {
            CandidateDecisionReason::Qualified => "qualified",
            CandidateDecisionReason::MissingMint => "missing_mint",
            CandidateDecisionReason::NotCreation => "not_creation",
            CandidateDecisionReason::NotFirstSeen => "not_first_seen",
            CandidateDecisionReason::MayhemNotOn => "mayhem_not_on",
            CandidateDecisionReason::DecodeConfidenceTooLow => "decode_confidence_too_low",
            CandidateDecisionReason::AlreadyArmed => "already_armed",
        }
    }
}

/// The accounts to keep following for an armed mint.
#[derive(Debug, Clone)]
pub struct MayhemTrackingRefs {
    pub mint: String,
    pub matched_program_id: String,
    pub relevant_accounts: Vec<String>,
}

/// A mint that passed every check and may now be traded.
#[derive(Debug, Clone)]
pub struct ArmedTradeCandidate {
    pub mint: String,
    pub signature: String,
    pub slot: u64,
    /// When the candidate was armed, in nanoseconds since the Unix epoch.
    pub armed_at: i128,
    pub initial_mayhem_status: MayhemStatus,
    pub decode_confidence: DecodeConfidence,
    pub matched_program_id: String,
    pub relevant_accounts: Vec<String>,
    pub mayhem_tracking_refs: MayhemTrackingRefs,
}

/// The outcome of qualifying one decoded event.
#[derive(Debug, Clone)]
pub struct CandidateDecision {
    pub kind: CandidateDecisionKind,
    pub reason: CandidateDecisionReason,
    pub mint: Option<String>,
    pub signature: String,
    pub slot: u64,
    pub armed_candidate: Option<ArmedTradeCandidate>,
}

/// The mints armed so far; none of them occurs twice.
///
/// The mints are kept in a `Vec` whose invariant is that no mint occurs
/// twice, which is what a `HashSet<String>` would give: vstd's `HashSet`
/// specification only speaks of keys known to obey its key model, and
/// `String` is not among them, so a set of strings could not be reasoned
/// about here.
#[derive(Debug)]
pub struct QualifierState {
    armed_mints: Vec<String>,
}

impl View for QualifierState {
    type V = Set<Seq<char>>;

    /// The set of armed mints.
    closed spec fn view(&self) -> Set<Seq<char>> {
        Set::new(|m: Seq<char>| exists|i: int| 0 <= i < self.armed_mints@.len() && #[trigger] self.armed_mints@[i]@ == m)
    }
}

impl QualifierState {
    #[verifier::type_invariant]
    closed spec fn no_duplicate_mints(&self) -> bool {
        forall|i: int, j: int|
            0 <= i < j < self.armed_mints@.len() ==> #[trigger] self.armed_mints@[i]@
                != #[trigger] self.armed_mints@[j]@
    }

    /// A state with no armed mint.
    pub fn new() -> (r: QualifierState)
        ensures
            r@ == Set::<Seq<char>>::empty(),
    {
        let r = QualifierState { armed_mints: Vec::new() };
        assert(r@ =~= Set::<Seq<char>>::empty());
        r
    }

    /// Whether `mint` has been armed.
    pub fn is_armed(&self, mint: &String) -> (r: bool)
        ensures
            r == self@.contains(mint@),
    {
        let n = self.armed_mints.len();
        let mut i: usize = 0;
        while i < n
            invariant
                n == self.armed_mints@.len(),
                i <= n,
                forall|j: int| 0 <= j < i ==> #[trigger] self.armed_mints@[j]@ != mint@,
            decreases n - i,
        {
            if self.armed_mints[i] == *mint {
                assert(self@.contains(mint@)) by {
                    assert(self.armed_mints@[i as int]@ == mint@);
                }
                return true;
            }
            i = i + 1;
        }
        assert(!self@.contains(mint@));
        false
    }

    /// Add a mint that is not armed yet.
    fn arm(&mut self, mint: String)
        requires
            !old(self)@.contains(mint@),
        ensures
            final(self)@ == old(self)@.insert(mint@),
    {
        proof {
            use_type_invariant(&*self);
        }
        let ghost before = self.armed_mints@;
        let ghost added = mint@;
        let mut mints: Vec<String> = Vec::new();
        std::mem::swap(&mut mints, &mut self.armed_mints);
        mints.push(mint);
        proof {
            assert forall|i: int, j: int| 0 <= i < j < mints@.len() implies #[trigger] mints@[i]@
                != #[trigger] mints@[j]@ by {
                if j == before.len() {
                    assert(old(self)@.contains(mints@[i]@));
                }
            }
        }
        std::mem::swap(&mut mints, &mut self.armed_mints);
        assert(self@ =~= old(self)@.insert(mint@)) by {
            assert forall|m: Seq<char>| self@.contains(m) implies old(self)@.insert(mint@).contains(m) by {
                let i = choose|i: int| 0 <= i < self.armed_mints@.len() && #[trigger] self.armed_mints@[i]@ == m;
                if i < before.len() {
                    assert(before[i]@ == m);
                }
            }
            assert forall|m: Seq<char>| old(self)@.insert(mint@).contains(m) implies self@.contains(m) by {
                if m == mint@ {
                    assert(self.armed_mints@[before.len() as int]@ == m);
                } else {
                    let i = choose|i: int| 0 <= i < before.len() && #[trigger] before[i]@ == m;
                    assert(self.armed_mints@[i]@ == m);
                }
            }
        }
    }
}

/// The verdict and reason for `e` when the mints in `armed` are armed. The
/// checks are made in this order and the first that fails decides.
pub open spec fn spec_outcome(armed: Set<Seq<char>>, e: DecodedMayhemEvent) -> (
    CandidateDecisionKind,
    CandidateDecisionReason,
) {
    match e.mint {
        None => (CandidateDecisionKind::Rejected, CandidateDecisionReason::MissingMint),
        Some(mint) => {
            if e.event_kind != DecodedEventKind::Creation || !e.is_creation_event {
                (CandidateDecisionKind::Rejected, CandidateDecisionReason::NotCreation)
            } else if !e.is_first_seen_mint {
                (CandidateDecisionKind::Rejected, CandidateDecisionReason::NotFirstSeen)
            } else if e.mayhem_status != MayhemStatus::On {
                (CandidateDecisionKind::Rejected, CandidateDecisionReason::MayhemNotOn)
            } else if e.decode_confidence != DecodeConfidence::High {
                (CandidateDecisionKind::Rejected, CandidateDecisionReason::DecodeConfidenceTooLow)
            } else if armed.contains(mint@) {
                (CandidateDecisionKind::Ignored, CandidateDecisionReason::AlreadyArmed)
            } else {
                (CandidateDecisionKind::Accepted, CandidateDecisionReason::Qualified)
            }
        },
    }
}

/// The armed mints after qualifying `e`: its mint is added exactly when the
/// event is accepted.
pub open spec fn spec_armed_after(armed: Set<Seq<char>>, e: DecodedMayhemEvent) -> Set<
    Seq<char>,
> {
    if spec_outcome(armed, e).0 == CandidateDecisionKind::Accepted {
        armed.insert(e.mint->0@)
    } else {
        armed
    }
}

/// `a` is the armed candidate built from `e` for `mint`.
pub open spec fn armed_candidate_for(
    a: ArmedTradeCandidate,
    e: DecodedMayhemEvent,
    mint: Seq<char>,
) -> bool {
    &&& a.mint@ == mint
    &&& a.signature@ == e.signature@
    &&& a.slot == e.slot
    &&& a.initial_mayhem_status == e.mayhem_status
    &&& a.decode_confidence == e.decode_confidence
    &&& a.matched_program_id@ == e.matched_program_id@
    &&& strings_view(a.relevant_accounts@) == strings_view(e.relevant_accounts@)
    &&& a.mayhem_tracking_refs.mint@ == mint
    &&& a.mayhem_tracking_refs.matched_program_id@ == e.matched_program_id@
    &&& strings_view(a.mayhem_tracking_refs.relevant_accounts@) == strings_view(
        e.relevant_accounts@,
    )
}

/// `d` is the decision on `e` when the mints in `armed` are armed: the verdict
/// and reason of [`spec_outcome`], the event's mint, signature and slot, and
/// an armed candidate built from the event exactly when it is accepted.
pub open spec fn is_decision_for(
    d: CandidateDecision,
    armed: Set<Seq<char>>,
    e: DecodedMayhemEvent,
) -> bool {
    let (kind, reason) = spec_outcome(armed, e);
    &&& d.kind == kind
    &&& d.reason == reason
    &&& option_view(d.mint) == option_view(e.mint)
    &&& d.signature@ == e.signature@
    &&& d.slot == e.slot
    &&& (d.armed_candidate is Some <==> kind == CandidateDecisionKind::Accepted)
    &&& (d.armed_candidate matches Some(a) ==> armed_candidate_for(a, e, e.mint->0@))
}

impl Default for QualifierState {
    /// A state with no armed mint.
    fn default() -> (r: QualifierState)
        ensures
            r@ == Set::<Seq<char>>::empty(),
    {
        QualifierState::new()
    }
}

/// `format!("{}...{}", &value[..6], &value[len - 4..])` for values longer than
/// 12 bytes; shorter values are kept whole.
pub fn shorten(value: &str) -> (r: String)
    requires
        can_abbreviate(encode_utf8(value@), 12, 6, 4),
    ensures
        r@ == spec_abbreviate(value@, 12, 6, 4),
{
    abbreviate(value, 12, 6, 4)
}

/// The armed mints after qualifying `events` one after another.
pub open spec fn spec_armed_after_all(armed: Set<Seq<char>>, events: Seq<DecodedMayhemEvent>) -> Set<
    Seq<char>,
>
    decreases events.len(),
{
    if events.len() == 0 {
        armed
    } else {
        spec_armed_after_all(spec_armed_after(armed, events[0]), events.drop_first())
    }
}

/// How many of `events`, qualified one after another, are accepted for `mint`.
pub open spec fn acceptances_of(
    armed: Set<Seq<char>>,
    events: Seq<DecodedMayhemEvent>,
    mint: Seq<char>,
) -> nat
    decreases events.len(),
{
    if events.len() == 0 {
        0
    } else {
        let e = events[0];
        let here: nat = if spec_outcome(armed, e).0 == CandidateDecisionKind::Accepted
            && e.mint->0@ == mint {
            1
        } else {
            0
        };
        here + acceptances_of(spec_armed_after(armed, e), events.drop_first(), mint)
    }
}

/// Qualifying an event never disarms a mint, and arms at most its own mint.
pub proof fn lemma_armed_only_grows(armed: Set<Seq<char>>, e: DecodedMayhemEvent)
    ensures
        armed.subset_of(spec_armed_after(armed, e)),
        spec_armed_after(armed, e).subset_of(
            match e.mint {
                Some(m) => armed.insert(m@),
                None => armed,
            },
        ),
{
}

/// An event accepted for a mint arms it.
pub proof fn lemma_accepted_mint_is_armed(armed: Set<Seq<char>>, e: DecodedMayhemEvent)
    requires
        spec_outcome(armed, e).0 == CandidateDecisionKind::Accepted,
    ensures
        e.mint is Some,
        spec_armed_after(armed, e).contains(e.mint->0@),
        !armed.contains(e.mint->0@),
{
}

/// The verdict and the reason always agree: accepted exactly when qualified,
/// ignored exactly when already armed, and rejected for every other reason.
pub proof fn lemma_kind_matches_reason(armed: Set<Seq<char>>, e: DecodedMayhemEvent)
    ensures
        (spec_outcome(armed, e).0 == CandidateDecisionKind::Accepted) <==> (spec_outcome(armed, e).1
            == CandidateDecisionReason::Qualified),
        (spec_outcome(armed, e).0 == CandidateDecisionKind::Ignored) <==> (spec_outcome(armed, e).1
            == CandidateDecisionReason::AlreadyArmed),
{
}

/// An event is accepted exactly when it has a mint, is a creation event on
/// both counts, is the first sighting of its mint, has Mayhem on, was decoded
/// with high confidence, and its mint is not armed yet; it is ignored exactly
/// when all of that holds but the mint is already armed; every other event is
/// rejected.
pub proof fn lemma_acceptance_conditions(armed: Set<Seq<char>>, e: DecodedMayhemEvent)
    ensures
        spec_outcome(armed, e) == (CandidateDecisionKind::Accepted, CandidateDecisionReason::Qualified)
            <==> ({
            &&& e.mint is Some
            &&& e.event_kind == DecodedEventKind::Creation
            &&& e.is_creation_event
            &&& e.is_first_seen_mint
            &&& e.mayhem_status == MayhemStatus::On
            &&& e.decode_confidence == DecodeConfidence::High
            &&& !armed.contains(e.mint->0@)
        }),
        spec_outcome(armed, e) == (CandidateDecisionKind::Ignored, CandidateDecisionReason::AlreadyArmed)
            <==> ({
            &&& e.mint is Some
            &&& e.event_kind == DecodedEventKind::Creation
            &&& e.is_creation_event
            &&& e.is_first_seen_mint
            &&& e.mayhem_status == MayhemStatus::On
            &&& e.decode_confidence == DecodeConfidence::High
            &&& armed.contains(e.mint->0@)
        }),
        spec_outcome(armed, e).0 == CandidateDecisionKind::Accepted || spec_outcome(armed, e).0
            == CandidateDecisionKind::Ignored || spec_outcome(armed, e).0
            == CandidateDecisionKind::Rejected,
{
}

/// Each rejection names the first check the event fails, in the order mint,
/// creation, first sighting, Mayhem status, decode confidence.
pub proof fn lemma_rejection_reasons(armed: Set<Seq<char>>, e: DecodedMayhemEvent)
    ensures
        e.mint is None ==> spec_outcome(armed, e) == (
            CandidateDecisionKind::Rejected,
            CandidateDecisionReason::MissingMint,
        ),
        e.mint is Some && (e.event_kind != DecodedEventKind::Creation || !e.is_creation_event)
            ==> spec_outcome(armed, e) == (
            CandidateDecisionKind::Rejected,
            CandidateDecisionReason::NotCreation,
        ),
        e.mint is Some && e.event_kind == DecodedEventKind::Creation && e.is_creation_event
            && !e.is_first_seen_mint ==> spec_outcome(armed, e) == (
            CandidateDecisionKind::Rejected,
            CandidateDecisionReason::NotFirstSeen,
        ),
        e.mint is Some && e.event_kind == DecodedEventKind::Creation && e.is_creation_event
            && e.is_first_seen_mint && e.mayhem_status != MayhemStatus::On ==> spec_outcome(
            armed,
            e,
        ) == (CandidateDecisionKind::Rejected, CandidateDecisionReason::MayhemNotOn),
        e.mint is Some && e.event_kind == DecodedEventKind::Creation && e.is_creation_event
            && e.is_first_seen_mint && e.mayhem_status == MayhemStatus::On && e.decode_confidence
            != DecodeConfidence::High ==> spec_outcome(armed, e) == (
            CandidateDecisionKind::Rejected,
            CandidateDecisionReason::DecodeConfidenceTooLow,
        ),
        spec_outcome(armed, e).0 == CandidateDecisionKind::Accepted ==> e.decode_confidence
            == DecodeConfidence::High,
{
}

/// A decision repeats the event's signature, slot and mint; it carries an
/// armed candidate exactly when it accepts, and that candidate is the
/// event's mint with the event's signature, slot, Mayhem status, decode
/// confidence, program and accounts, tracked under the same mint, program
/// and accounts.
pub proof fn lemma_decision_fields(d: CandidateDecision, armed: Set<Seq<char>>, e: DecodedMayhemEvent)
    requires
        is_decision_for(d, armed, e),
    ensures
        d.signature@ == e.signature@,
        d.slot == e.slot,
        d.mint is Some <==> e.mint is Some,
        d.mint matches Some(m) ==> m@ == e.mint->0@,
        d.armed_candidate is Some <==> d.kind == CandidateDecisionKind::Accepted,
        d.armed_candidate matches Some(a) ==> {
            &&& e.mint matches Some(m) && a.mint@ == m@
            &&& a.signature@ == e.signature@
            &&& a.slot == e.slot
            &&& a.initial_mayhem_status == e.mayhem_status
            &&& a.initial_mayhem_status == MayhemStatus::On
            &&& a.decode_confidence == e.decode_confidence
            &&& a.decode_confidence == DecodeConfidence::High
            &&& a.matched_program_id@ == e.matched_program_id@
            &&& a.relevant_accounts@.len() == e.relevant_accounts@.len()
            &&& forall|i: int|
                0 <= i < a.relevant_accounts@.len() ==> #[trigger] a.relevant_accounts@[i]@
                    == e.relevant_accounts@[i]@
            &&& a.mayhem_tracking_refs.mint@ == a.mint@
            &&& a.mayhem_tracking_refs.matched_program_id@ == e.matched_program_id@
            &&& a.mayhem_tracking_refs.relevant_accounts@.len() == e.relevant_accounts@.len()
        },
{
    if d.armed_candidate is Some {
        let a = d.armed_candidate->0;
        assert(strings_view(a.relevant_accounts@).len() == a.relevant_accounts@.len());
        assert(strings_view(e.relevant_accounts@).len() == e.relevant_accounts@.len());
        assert forall|i: int| 0 <= i < a.relevant_accounts@.len() implies #[trigger] a.relevant_accounts@[i]@
            == e.relevant_accounts@[i]@ by {
            assert(strings_view(a.relevant_accounts@)[i] == strings_view(e.relevant_accounts@)[i]);
        }
        assert(strings_view(a.mayhem_tracking_refs.relevant_accounts@).len()
            == strings_view(e.relevant_accounts@).len());
    }
}

/// An event passes every check that does not depend on the armed mints.
pub open spec fn passes_checks(e: DecodedMayhemEvent) -> bool {
    spec_outcome(Set::empty(), e).0 == CandidateDecisionKind::Accepted
}

/// An event that passes every check is accepted when its mint is not armed
/// yet, and ignored as already armed when it is.
pub proof fn lemma_passing_event_outcome(armed: Set<Seq<char>>, e: DecodedMayhemEvent)
    requires
        passes_checks(e),
    ensures
        e.mint is Some,
        spec_outcome(armed, e) == (if armed.contains(e.mint->0@) {
            (CandidateDecisionKind::Ignored, CandidateDecisionReason::AlreadyArmed)
        } else {
            (CandidateDecisionKind::Accepted, CandidateDecisionReason::Qualified)
        }),
{
}

/// Over any non-empty run of events for one mint that all pass every check,
/// the mint ends up armed, and it is accepted exactly once when it was not
/// armed before the run (every other event being ignored as already armed),
/// and never when it was.
pub proof fn lemma_mint_accepted_exactly_once(
    armed: Set<Seq<char>>,
    events: Seq<DecodedMayhemEvent>,
    mint: Seq<char>,
)
    requires
        events.len() > 0,
        forall|i: int|
            0 <= i < events.len() ==> passes_checks(#[trigger] events[i]) && events[i].mint->0@
                == mint,
    ensures
        acceptances_of(armed, events, mint) == (if armed.contains(mint) {
            0nat
        } else {
            1nat
        }),
        spec_armed_after_all(armed, events).contains(mint),
    decreases events.len(),
{
    let e = events[0];
    assert(passes_checks(events[0]));
    lemma_passing_event_outcome(armed, e);
    let next = spec_armed_after(armed, e);
    assert(next.contains(mint));
    let rest = events.drop_first();
    if rest.len() > 0 {
        assert forall|i: int| 0 <= i < rest.len() implies passes_checks(#[trigger] rest[i])
            && rest[i].mint->0@ == mint by {
            assert(rest[i] == events[i + 1]);
        }
        lemma_mint_accepted_exactly_once(next, rest, mint);
    } else {
        assert(acceptances_of(next, rest, mint) == 0);
        assert(spec_armed_after_all(next, rest) == next);
    }
}

/// A rejection depends on the event alone, never on which mints are armed.
pub proof fn lemma_rejection_ignores_armed_mints(
    armed: Set<Seq<char>>,
    other: Set<Seq<char>>,
    e: DecodedMayhemEvent,
)
    requires
        spec_outcome(armed, e).0 == CandidateDecisionKind::Rejected,
    ensures
        spec_outcome(other, e) == spec_outcome(armed, e),
{
}

/// Once a mint is armed, it stays armed whatever events follow.
pub proof fn lemma_armed_stays_armed(
    armed: Set<Seq<char>>,
    events: Seq<DecodedMayhemEvent>,
    mint: Seq<char>,
)
    requires
        armed.contains(mint),
    ensures
        spec_armed_after_all(armed, events).contains(mint),
    decreases events.len(),
{
    if events.len() > 0 {
        lemma_armed_only_grows(armed, events[0]);
        lemma_armed_stays_armed(spec_armed_after(armed, events[0]), events.drop_first(), mint);
    }
}

/// A mint is accepted at most once over any run of events, and never when it
/// was armed before the run started.
pub proof fn lemma_mint_accepted_at_most_once(
    armed: Set<Seq<char>>,
    events: Seq<DecodedMayhemEvent>,
    mint: Seq<char>,
)
    ensures
        acceptances_of(armed, events, mint) <= 1,
        armed.contains(mint) ==> acceptances_of(armed, events, mint) == 0,
    decreases events.len(),
{
    if events.len() > 0 {
        let e = events[0];
        let next = spec_armed_after(armed, e);
        lemma_armed_only_grows(armed, e);
        lemma_mint_accepted_at_most_once(next, events.drop_first(), mint);
        if spec_outcome(armed, e).0 == CandidateDecisionKind::Accepted && e.mint->0@ == mint {
            assert(next.contains(mint));
        }
    }
}

/// A copy of a list of strings.
fn clone_strings(v: &Vec<String>) -> (r: Vec<String>)
    ensures
        strings_view(r@) == strings_view(v@),
{
    let mut r: Vec<String> = Vec::new();
    let n = v.len();
    let mut i: usize = 0;
    while i < n
        invariant
            n == v@.len(),
            i <= n,
            r@.len() == i,
            forall|j: int| 0 <= j < i ==> #[trigger] r@[j]@ == v@[j]@,
        decreases n - i,
    {
        r.push(v[i].clone());
        i = i + 1;
    }
    assert(strings_view(r@) =~= strings_view(v@));
    r
}

/// A decision that is not an acceptance.
fn decision_without_candidate(
    kind: CandidateDecisionKind,
    reason: CandidateDecisionReason,
    mint: Option<String>,
    event: &DecodedMayhemEvent,
) -> (r: CandidateDecision)
    ensures
        r.kind == kind,
        r.reason == reason,
        option_view(r.mint) == option_view(mint),
        r.signature@ == event.signature@,
        r.slot == event.slot,
        r.armed_candidate is None,
{
    CandidateDecision {
        kind,
        reason,
        mint,
        signature: event.signature.clone(),
        slot: event.slot,
        armed_candidate: None,
    }
}

/// Qualify `event` against the mints armed in `qualifier_state`, arming its
/// mint when it is accepted; the armed candidate is stamped with `armed_at`
/// (nanoseconds since the Unix epoch).
pub fn qualify_decoded_event_at(
    qualifier_state: &mut QualifierState,
    event: &DecodedMayhemEvent,
    armed_at: i128,
) -> (r: CandidateDecision)
    ensures
        is_decision_for(r, old(qualifier_state)@, *event),
        final(qualifier_state)@ == spec_armed_after(old(qualifier_state)@, *event),
        r.armed_candidate matches Some(a) ==> a.armed_at == armed_at,
{
    let mint = match &event.mint {
        Some(mint) => mint.clone(),
        None => {
            return decision_without_candidate(
                CandidateDecisionKind::Rejected,
                CandidateDecisionReason::MissingMint,
                None,
                event,
            );
        },
    };
    if event.event_kind != DecodedEventKind::Creation || !event.is_creation_event {
        return decision_without_candidate(
            CandidateDecisionKind::Rejected,
            CandidateDecisionReason::NotCreation,
            Some(mint),
            event,
        );
    }
    if !event.is_first_seen_mint {
        return decision_without_candidate(
            CandidateDecisionKind::Rejected,
            CandidateDecisionReason::NotFirstSeen,
            Some(mint),
            event,
        );
    }
    if event.mayhem_status != MayhemStatus::On {
        return decision_without_candidate(
            CandidateDecisionKind::Rejected,
            CandidateDecisionReason::MayhemNotOn,
            Some(mint),
            event,
        );
    }
    if event.decode_confidence != DecodeConfidence::High {
        return decision_without_candidate(
            CandidateDecisionKind::Rejected,
            CandidateDecisionReason::DecodeConfidenceTooLow,
            Some(mint),
            event,
        );
    }
    if qualifier_state.is_armed(&mint) {
        return decision_without_candidate(
            CandidateDecisionKind::Ignored,
            CandidateDecisionReason::AlreadyArmed,
            Some(mint),
            event,
        );
    }
    qualifier_state.arm(mint.clone());
    let tracking_refs = MayhemTrackingRefs {
        mint: mint.clone(),
        matched_program_id: event.matched_program_id.clone(),
        relevant_accounts: clone_strings(&event.relevant_accounts),
    };
    let armed = ArmedTradeCandidate {
        mint: mint.clone(),
        signature: event.signature.clone(),
        slot: event.slot,
        armed_at,
        initial_mayhem_status: event.mayhem_status,
        decode_confidence: event.decode_confidence,
        matched_program_id: event.matched_program_id.clone(),
        relevant_accounts: clone_strings(&event.relevant_accounts),
        mayhem_tracking_refs: tracking_refs,
    };
    CandidateDecision {
        kind: CandidateDecisionKind::Accepted,
        reason: CandidateDecisionReason::Qualified,
        mint: Some(mint),
        signature: event.signature.clone(),
        slot: event.slot,
        armed_candidate: Some(armed),
    }
}

/// Qualify `event` against the mints armed in `qualifier_state`, arming its
/// mint when it is accepted. An armed candidate is stamped with the current
/// time, which is the one field that the contract leaves open.
pub fn qualify_decoded_event(
    qualifier_state: &mut QualifierState,
    event: &DecodedMayhemEvent,
) -> (r: CandidateDecision)
    ensures
        is_decision_for(r, old(qualifier_state)@, *event),
        final(qualifier_state)@ == spec_armed_after(old(qualifier_state)@, *event),
        r.armed_candidate matches Some(a) ==> is_clock_reading(a.armed_at as int),
{
    let armed_at = unix_time_nanos();
    qualify_decoded_event_at(qualifier_state, event, armed_at)
}

} // verus!
