//! Statistics translation: each engine's raw report shapes normalized
//! into one reporting schema.
//!
//! Only three report kinds are part of the schema — candidate pairs and
//! local/remote candidates. Every other kind an engine reports is silently
//! dropped, never surfaced as a partial failure. The native engine hands
//! typed reports whose enums arrive as small integer codes; the
//! event-object engine hands string-keyed entries any field of which may
//! be missing, and an entry with a missing required field is dropped the
//! same way an unsupported kind is.

use vstd::prelude::*;

use crate::str_eq;

verus! {

/// The checking state of a candidate pair, as the engine reports it.
#[derive(Debug, Clone, Copy, PartialEq, Eq, Structural)]
pub enum CandidatePairState {
    Unspecified,
    Waiting,
    InProgress,
    Failed,
    Succeeded,
}

/// The pair state the native engine means by each of its integer codes.
pub open spec fn pair_state_of_native_code(code: u8) -> CandidatePairState {
    if code == 1 {
        CandidatePairState::Waiting
    } else if code == 2 {
        CandidatePairState::InProgress
    } else if code == 3 {
        CandidatePairState::Failed
    } else if code == 4 {
        CandidatePairState::Succeeded
    } else {
        CandidatePairState::Unspecified
    }
}

/// The pair state the event-object engine means by each label string.
pub open spec fn pair_state_of_label(s: Seq<char>) -> CandidatePairState {
    if s == "waiting"@ {
        CandidatePairState::Waiting
    } else if s == "in-progress"@ {
        CandidatePairState::InProgress
    } else if s == "failed"@ {
        CandidatePairState::Failed
    } else if s == "succeeded"@ {
        CandidatePairState::Succeeded
    } else {
        CandidatePairState::Unspecified
    }
}

impl CandidatePairState {
    /// Reads the native engine's integer code for a pair state.
    pub fn from_native_code(code: u8) -> (r: Self)
        ensures
            r == pair_state_of_native_code(code),
    {
        match code {
            1 => CandidatePairState::Waiting,
            2 => CandidatePairState::InProgress,
            3 => CandidatePairState::Failed,
            4 => CandidatePairState::Succeeded,
            _ => CandidatePairState::Unspecified,
        }
    }

    /// Reads a pair-state label, as the event-object engine reports it.
    pub fn from_label(label: &str) -> (r: Self)
        ensures
            r == pair_state_of_label(label@),
    {
        if str_eq(label, "waiting") {
            CandidatePairState::Waiting
        } else if str_eq(label, "in-progress") {
            CandidatePairState::InProgress
        } else if str_eq(label, "failed") {
            CandidatePairState::Failed
        } else if str_eq(label, "succeeded") {
            CandidatePairState::Succeeded
        } else {
            CandidatePairState::Unspecified
        }
    }
}

/// How a candidate was discovered, as the engine reports it.
#[derive(Debug, Clone, Copy, PartialEq, Eq, Structural)]
pub enum CandidateType {
    Unspecified,
    Host,
    ServerReflexive,
    PeerReflexive,
    Relay,
}

/// The candidate type the native engine means by each of its integer codes.
pub open spec fn candidate_type_of_native_code(code: u8) -> CandidateType {
    if code == 1 {
        CandidateType::Host
    } else if code == 2 {
        CandidateType::ServerReflexive
    } else if code == 3 {
        CandidateType::PeerReflexive
    } else if code == 4 {
        CandidateType::Relay
    } else {
        CandidateType::Unspecified
    }
}

/// The candidate type the event-object engine means by each label string.
pub open spec fn candidate_type_of_label(s: Seq<char>) -> CandidateType {
    if s == "host"@ {
        CandidateType::Host
    } else if s == "srflx"@ {
        CandidateType::ServerReflexive
    } else if s == "prflx"@ {
        CandidateType::PeerReflexive
    } else if s == "relay"@ {
        CandidateType::Relay
    } else {
        CandidateType::Unspecified
    }
}

impl CandidateType {
    /// Reads the native engine's integer code for a candidate type.
    pub fn from_native_code(code: u8) -> (r: Self)
        ensures
            r == candidate_type_of_native_code(code),
    {
        match code {
            1 => CandidateType::Host,
            2 => CandidateType::ServerReflexive,
            3 => CandidateType::PeerReflexive,
            4 => CandidateType::Relay,
            _ => CandidateType::Unspecified,
        }
    }

    /// Reads a candidate-type label, as the event-object engine reports it.
    pub fn from_label(label: &str) -> (r: Self)
        ensures
            r == candidate_type_of_label(label@),
    {
        if str_eq(label, "host") {
            CandidateType::Host
        } else if str_eq(label, "srflx") {
            CandidateType::ServerReflexive
        } else if str_eq(label, "prflx") {
            CandidateType::PeerReflexive
        } else if str_eq(label, "relay") {
            CandidateType::Relay
        } else {
            CandidateType::Unspecified
        }
    }
}

/// One candidate pair in the uniform reporting schema.
#[derive(Debug, Clone)]
pub struct CandidatePairStats {
    pub id: String,
    pub local_candidate_id: String,
    pub remote_candidate_id: String,
    pub state: CandidatePairState,
    pub nominated: bool,
}

/// The mathematical value of a [`CandidatePairStats`].
#[verifier::ext_equal]
pub struct CandidatePairStatsView {
    pub id: Seq<char>,
    pub local_candidate_id: Seq<char>,
    pub remote_candidate_id: Seq<char>,
    pub state: CandidatePairState,
    pub nominated: bool,
}

impl View for CandidatePairStats {
    type V = CandidatePairStatsView;

    open spec fn view(&self) -> CandidatePairStatsView {
        CandidatePairStatsView {
            id: self.id@,
            local_candidate_id: self.local_candidate_id@,
            remote_candidate_id: self.remote_candidate_id@,
            state: self.state,
            nominated: self.nominated,
        }
    }
}

/// One local or remote candidate in the uniform reporting schema.
#[derive(Debug, Clone)]
pub struct CandidateStats {
    pub id: String,
    pub candidate_type: CandidateType,
}

/// The mathematical value of a [`CandidateStats`].
#[verifier::ext_equal]
pub struct CandidateStatsView {
    pub id: Seq<char>,
    pub candidate_type: CandidateType,
}

impl View for CandidateStats {
    type V = CandidateStatsView;

    open spec fn view(&self) -> CandidateStatsView {
        CandidateStatsView { id: self.id@, candidate_type: self.candidate_type }
    }
}

/// One report in the uniform schema: the three supported kinds.
#[derive(Debug, Clone)]
pub enum StatsReportType {
    CandidatePair(CandidatePairStats),
    LocalCandidate(CandidateStats),
    RemoteCandidate(CandidateStats),
}

/// The mathematical value of a [`StatsReportType`].
#[verifier::ext_equal]
pub enum StatsReportTypeView {
    CandidatePair(CandidatePairStatsView),
    LocalCandidate(CandidateStatsView),
    RemoteCandidate(CandidateStatsView),
}

impl View for StatsReportType {
    type V = StatsReportTypeView;

    open spec fn view(&self) -> StatsReportTypeView {
        match self {
            StatsReportType::CandidatePair(s) => StatsReportTypeView::CandidatePair(s@),
            StatsReportType::LocalCandidate(s) => StatsReportTypeView::LocalCandidate(s@),
            StatsReportType::RemoteCandidate(s) => StatsReportTypeView::RemoteCandidate(s@),
        }
    }
}

impl DeepView for StatsReportType {
    type V = StatsReportTypeView;

    open spec fn deep_view(&self) -> StatsReportTypeView {
        self.view()
    }
}

/// One entry of the uniform stats mapping: a report under its report id.
#[derive(Debug, Clone)]
pub struct StatsEntry {
    pub id: String,
    pub report: StatsReportType,
}

/// The mathematical value of a [`StatsEntry`].
#[verifier::ext_equal]
pub struct StatsEntryView {
    pub id: Seq<char>,
    pub report: StatsReportTypeView,
}

impl View for StatsEntry {
    type V = StatsEntryView;

    open spec fn view(&self) -> StatsEntryView {
        StatsEntryView { id: self.id@, report: self.report@ }
    }
}

impl DeepView for StatsEntry {
    type V = StatsEntryView;

    open spec fn deep_view(&self) -> StatsEntryView {
        self.view()
    }
}

/// One raw report of the native engine, as read from its typed report
/// value: the fields this layer reads, with enums as the engine's integer
/// codes. Every report kind outside the supported set is `Unsupported`.
#[derive(Debug, Clone)]
pub enum NativeStatsReport {
    CandidatePair {
        id: String,
        local_candidate_id: String,
        remote_candidate_id: String,
        state_code: u8,
        nominated: bool,
    },
    LocalCandidate { id: String, candidate_type_code: u8 },
    RemoteCandidate { id: String, candidate_type_code: u8 },
    Unsupported,
}

/// The mathematical value of a [`NativeStatsReport`].
#[verifier::ext_equal]
pub enum NativeStatsReportView {
    CandidatePair {
        id: Seq<char>,
        local_candidate_id: Seq<char>,
        remote_candidate_id: Seq<char>,
        state_code: u8,
        nominated: bool,
    },
    LocalCandidate { id: Seq<char>, candidate_type_code: u8 },
    RemoteCandidate { id: Seq<char>, candidate_type_code: u8 },
    Unsupported,
}

impl View for NativeStatsReport {
    type V = NativeStatsReportView;

    open spec fn view(&self) -> NativeStatsReportView {
        match self {
            NativeStatsReport::CandidatePair {
                id,
                local_candidate_id,
                remote_candidate_id,
                state_code,
                nominated,
            } => NativeStatsReportView::CandidatePair {
                id: id@,
                local_candidate_id: local_candidate_id@,
                remote_candidate_id: remote_candidate_id@,
                state_code: *state_code,
                nominated: *nominated,
            },
            NativeStatsReport::LocalCandidate { id, candidate_type_code } => {
                NativeStatsReportView::LocalCandidate {
                    id: id@,
                    candidate_type_code: *candidate_type_code,
                }
            },
            NativeStatsReport::RemoteCandidate { id, candidate_type_code } => {
                NativeStatsReportView::RemoteCandidate {
                    id: id@,
                    candidate_type_code: *candidate_type_code,
                }
            },
            NativeStatsReport::Unsupported => NativeStatsReportView::Unsupported,
        }
    }
}

/// One raw native entry: a report under the key the engine filed it by.
#[derive(Debug, Clone)]
pub struct NativeStatsEntry {
    pub key: String,
    pub report: NativeStatsReport,
}

/// The mathematical value of a [`NativeStatsEntry`].
#[verifier::ext_equal]
pub struct NativeStatsEntryView {
    pub key: Seq<char>,
    pub report: NativeStatsReportView,
}

impl View for NativeStatsEntry {
    type V = NativeStatsEntryView;

    open spec fn view(&self) -> NativeStatsEntryView {
        NativeStatsEntryView { key: self.key@, report: self.report@ }
    }
}

impl DeepView for NativeStatsEntry {
    type V = NativeStatsEntryView;

    open spec fn deep_view(&self) -> NativeStatsEntryView {
        self.view()
    }
}

/// What one raw native entry becomes in the uniform schema: the
/// translated report under the same key, or nothing for an unsupported
/// kind.
pub open spec fn native_entry_translation(e: NativeStatsEntryView) -> Option<StatsEntryView> {
    match e.report {
        NativeStatsReportView::CandidatePair {
            id,
            local_candidate_id,
            remote_candidate_id,
            state_code,
            nominated,
        } => Some(
            StatsEntryView {
                id: e.key,
                report: StatsReportTypeView::CandidatePair(
                    CandidatePairStatsView {
                        id,
                        local_candidate_id,
                        remote_candidate_id,
                        state: pair_state_of_native_code(state_code),
                        nominated,
                    },
                ),
            },
        ),
        NativeStatsReportView::LocalCandidate { id, candidate_type_code } => Some(
            StatsEntryView {
                id: e.key,
                report: StatsReportTypeView::LocalCandidate(
                    CandidateStatsView {
                        id,
                        candidate_type: candidate_type_of_native_code(candidate_type_code),
                    },
                ),
            },
        ),
        NativeStatsReportView::RemoteCandidate { id, candidate_type_code } => Some(
            StatsEntryView {
                id: e.key,
                report: StatsReportTypeView::RemoteCandidate(
                    CandidateStatsView {
                        id,
                        candidate_type: candidate_type_of_native_code(candidate_type_code),
                    },
                ),
            },
        ),
        NativeStatsReportView::Unsupported => None,
    }
}

/// One raw entry of the event-object engine's report: every field is read
/// dynamically and any of them may be missing.
#[derive(Debug, Clone)]
pub struct WebStatsEntry {
    pub id: Option<String>,
    pub kind: Option<String>,
    pub local_candidate_id: Option<String>,
    pub remote_candidate_id: Option<String>,
    pub state: Option<String>,
    pub nominated: Option<bool>,
    pub candidate_type: Option<String>,
}

/// The mathematical value of a [`WebStatsEntry`].
#[verifier::ext_equal]
pub struct WebStatsEntryView {
    pub id: Option<Seq<char>>,
    pub kind: Option<Seq<char>>,
    pub local_candidate_id: Option<Seq<char>>,
    pub remote_candidate_id: Option<Seq<char>>,
    pub state: Option<Seq<char>>,
    pub nominated: Option<bool>,
    pub candidate_type: Option<Seq<char>>,
}

impl View for WebStatsEntry {
    type V = WebStatsEntryView;

    open spec fn view(&self) -> WebStatsEntryView {
        WebStatsEntryView {
            id: self.id.deep_view(),
            kind: self.kind.deep_view(),
            local_candidate_id: self.local_candidate_id.deep_view(),
            remote_candidate_id: self.remote_candidate_id.deep_view(),
            state: self.state.deep_view(),
            nominated: self.nominated,
            candidate_type: self.candidate_type.deep_view(),
        }
    }
}

impl DeepView for WebStatsEntry {
    type V = WebStatsEntryView;

    open spec fn deep_view(&self) -> WebStatsEntryView {
        self.view()
    }
}

/// What one raw event-object entry becomes in the uniform schema: a
/// report under the entry's own id, or nothing when the id, the kind, or
/// a field the kind requires is missing, or the kind is unsupported.
pub open spec fn web_entry_translation(e: WebStatsEntryView) -> Option<StatsEntryView> {
    if e.id is None || e.kind is None {
        None
    } else if e.kind->0 == "candidate-pair"@ {
        if e.local_candidate_id is Some && e.remote_candidate_id is Some && e.state is Some
            && e.nominated is Some {
            Some(
                StatsEntryView {
                    id: e.id->0,
                    report: StatsReportTypeView::CandidatePair(
                        CandidatePairStatsView {
                            id: e.id->0,
                            local_candidate_id: e.local_candidate_id->0,
                            remote_candidate_id: e.remote_candidate_id->0,
                            state: pair_state_of_label(e.state->0),
                            nominated: e.nominated->0,
                        },
                    ),
                },
            )
        } else {
            None
        }
    } else if e.kind->0 == "local-candidate"@ {
        if e.candidate_type is Some {
            Some(
                StatsEntryView {
                    id: e.id->0,
                    report: StatsReportTypeView::LocalCandidate(
                        CandidateStatsView {
                            id: e.id->0,
                            candidate_type: candidate_type_of_label(e.candidate_type->0),
                        },
                    ),
                },
            )
        } else {
            None
        }
    } else if e.kind->0 == "remote-candidate"@ {
        if e.candidate_type is Some {
            Some(
                StatsEntryView {
                    id: e.id->0,
                    report: StatsReportTypeView::RemoteCandidate(
                        CandidateStatsView {
                            id: e.id->0,
                            candidate_type: candidate_type_of_label(e.candidate_type->0),
                        },
                    ),
                },
            )
        } else {
            None
        }
    } else {
        None
    }
}

/// The uniform entries a sequence of raw native entries translates to,
/// in order, unsupported kinds dropped.
pub open spec fn native_translation_seq(s: Seq<NativeStatsEntryView>) -> Seq<StatsEntryView>
    decreases s.len(),
{
    if s.len() == 0 {
        Seq::empty()
    } else {
        match native_entry_translation(s[0]) {
            Some(t) => seq![t] + native_translation_seq(s.drop_first()),
            None => native_translation_seq(s.drop_first()),
        }
    }
}

/// The uniform entries a sequence of raw event-object entries translates
/// to, in order, incomplete and unsupported entries dropped.
pub open spec fn web_translation_seq(s: Seq<WebStatsEntryView>) -> Seq<StatsEntryView>
    decreases s.len(),
{
    if s.len() == 0 {
        Seq::empty()
    } else {
        match web_entry_translation(s[0]) {
            Some(t) => seq![t] + web_translation_seq(s.drop_first()),
            None => web_translation_seq(s.drop_first()),
        }
    }
}

/// Appending one raw native entry appends its translation, if any.
proof fn lemma_native_translation_push(s: Seq<NativeStatsEntryView>, x: NativeStatsEntryView)
    ensures
        native_translation_seq(s.push(x)) == native_translation_seq(s) + (match native_entry_translation(
            x,
        ) {
            Some(t) => seq![t],
            None => Seq::<StatsEntryView>::empty(),
        }),
    decreases s.len(),
{
    if s.len() == 0 {
        assert(s.push(x)[0] == x);
        assert(s.push(x).drop_first() =~= s);
        match native_entry_translation(x) {
            Some(t) => {
                assert(native_translation_seq(s.push(x)) =~= native_translation_seq(s) + seq![t]);
            },
            None => {
                assert(native_translation_seq(s.push(x)) =~= native_translation_seq(s)
                    + Seq::<StatsEntryView>::empty());
            },
        }
    } else {
        lemma_native_translation_push(s.drop_first(), x);
        assert(s.push(x)[0] == s[0]);
        assert(s.push(x).drop_first() =~= s.drop_first().push(x));
        match native_entry_translation(x) {
            Some(t) => {
                assert(native_translation_seq(s.push(x)) =~= native_translation_seq(s) + seq![t]);
            },
            None => {
                assert(native_translation_seq(s.push(x)) =~= native_translation_seq(s)
                    + Seq::<StatsEntryView>::empty());
            },
        }
    }
}

/// Appending one raw event-object entry appends its translation, if any.
proof fn lemma_web_translation_push(s: Seq<WebStatsEntryView>, x: WebStatsEntryView)
    ensures
        web_translation_seq(s.push(x)) == web_translation_seq(s) + (match web_entry_translation(x) {
            Some(t) => seq![t],
            None => Seq::<StatsEntryView>::empty(),
        }),
    decreases s.len(),
{
    if s.len() == 0 {
        assert(s.push(x)[0] == x);
        assert(s.push(x).drop_first() =~= s);
        match web_entry_translation(x) {
            Some(t) => {
                assert(web_translation_seq(s.push(x)) =~= web_translation_seq(s) + seq![t]);
            },
            None => {
                assert(web_translation_seq(s.push(x)) =~= web_translation_seq(s)
                    + Seq::<StatsEntryView>::empty());
            },
        }
    } else {
        lemma_web_translation_push(s.drop_first(), x);
        assert(s.push(x)[0] == s[0]);
        assert(s.push(x).drop_first() =~= s.drop_first().push(x));
        match web_entry_translation(x) {
            Some(t) => {
                assert(web_translation_seq(s.push(x)) =~= web_translation_seq(s) + seq![t]);
            },
            None => {
                assert(web_translation_seq(s.push(x)) =~= web_translation_seq(s)
                    + Seq::<StatsEntryView>::empty());
            },
        }
    }
}

/// Translates the native engine's raw report entries into the uniform
/// schema: every supported report is kept, in order and under its key,
/// with its enums read from their integer codes; every unsupported kind
/// is dropped. Translation itself never fails.
pub fn translate_native_stats(reports: Vec<NativeStatsEntry>) -> (r: Vec<StatsEntry>)
    ensures
        r.deep_view() == native_translation_seq(reports.deep_view()),
{
    let mut out: Vec<StatsEntry> = Vec::new();
    let n = reports.len();
    for i in 0..n
        invariant
            n == reports.len(),
            out.deep_view() =~= native_translation_seq(reports.deep_view().take(i as int)),
    {
        proof {
            assert(reports.deep_view().take(i + 1) =~= reports.deep_view().take(i as int).push(
                reports.deep_view()[i as int],
            ));
            lemma_native_translation_push(
                reports.deep_view().take(i as int),
                reports.deep_view()[i as int],
            );
        }
        let entry = &reports[i];
        match &entry.report {
            NativeStatsReport::CandidatePair {
                id,
                local_candidate_id,
                remote_candidate_id,
                state_code,
                nominated,
            } => {
                let translated = StatsEntry {
                    id: entry.key.clone(),
                    report: StatsReportType::CandidatePair(
                        CandidatePairStats {
                            id: id.clone(),
                            local_candidate_id: local_candidate_id.clone(),
                            remote_candidate_id: remote_candidate_id.clone(),
                            state: CandidatePairState::from_native_code(*state_code),
                            nominated: *nominated,
                        },
                    ),
                };
                proof {
                    assert(translated@ =~= native_entry_translation(
                        reports.deep_view()[i as int],
                    )->0);
                }
                out.push(translated);
            },
            NativeStatsReport::LocalCandidate { id, candidate_type_code } => {
                let translated = StatsEntry {
                    id: entry.key.clone(),
                    report: StatsReportType::LocalCandidate(
                        CandidateStats {
                            id: id.clone(),
                            candidate_type: CandidateType::from_native_code(*candidate_type_code),
                        },
                    ),
                };
                proof {
                    assert(translated@ =~= native_entry_translation(
                        reports.deep_view()[i as int],
                    )->0);
                }
                out.push(translated);
            },
            NativeStatsReport::RemoteCandidate { id, candidate_type_code } => {
                let translated = StatsEntry {
                    id: entry.key.clone(),
                    report: StatsReportType::RemoteCandidate(
                        CandidateStats {
                            id: id.clone(),
                            candidate_type: CandidateType::from_native_code(*candidate_type_code),
                        },
                    ),
                };
                proof {
                    assert(translated@ =~= native_entry_translation(
                        reports.deep_view()[i as int],
                    )->0);
                }
                out.push(translated);
            },
            NativeStatsReport::Unsupported => {},
        }
        proof {
            assert(out.deep_view() =~= native_translation_seq(reports.deep_view().take(i + 1)));
        }
    }
    proof {
        assert(reports.deep_view().take(n as int) =~= reports.deep_view());
    }
    out
}

/// Translates the event-object engine's raw report entries into the
/// uniform schema: every complete entry of a supported kind is kept, in
/// order and under its own id, with its enums read from their labels;
/// every other entry is dropped. Translation itself never fails.
pub fn translate_web_stats(reports: Vec<WebStatsEntry>) -> (r: Vec<StatsEntry>)
    ensures
        r.deep_view() == web_translation_seq(reports.deep_view()),
{
    let mut out: Vec<StatsEntry> = Vec::new();
    let n = reports.len();
    for i in 0..n
        invariant
            n == reports.len(),
            out.deep_view() =~= web_translation_seq(reports.deep_view().take(i as int)),
    {
        proof {
            assert(reports.deep_view().take(i + 1) =~= reports.deep_view().take(i as int).push(
                reports.deep_view()[i as int],
            ));
            lemma_web_translation_push(
                reports.deep_view().take(i as int),
                reports.deep_view()[i as int],
            );
        }
        let entry = &reports[i];
        if let (Some(id), Some(kind)) = (&entry.id, &entry.kind) {
            if str_eq(kind.as_str(), "candidate-pair") {
                if let (Some(local_candidate_id), Some(remote_candidate_id), Some(state), Some(
                    nominated,
                )) = (
                    &entry.local_candidate_id,
                    &entry.remote_candidate_id,
                    &entry.state,
                    &entry.nominated,
                ) {
                    let translated = StatsEntry {
                        id: id.clone(),
                        report: StatsReportType::CandidatePair(
                            CandidatePairStats {
                                id: id.clone(),
                                local_candidate_id: local_candidate_id.clone(),
                                remote_candidate_id: remote_candidate_id.clone(),
                                state: CandidatePairState::from_label(state.as_str()),
                                nominated: *nominated,
                            },
                        ),
                    };
                    proof {
                        assert(translated@ =~= web_entry_translation(
                            reports.deep_view()[i as int],
                        )->0);
                    }
                    out.push(translated);
                }
            } else if str_eq(kind.as_str(), "local-candidate") {
                if let Some(candidate_type) = &entry.candidate_type {
                    let translated = StatsEntry {
                        id: id.clone(),
                        report: StatsReportType::LocalCandidate(
                            CandidateStats {
                                id: id.clone(),
                                candidate_type: CandidateType::from_label(candidate_type.as_str()),
                            },
                        ),
                    };
                    proof {
                        assert(translated@ =~= web_entry_translation(
                            reports.deep_view()[i as int],
                        )->0);
                    }
                    out.push(translated);
                }
            } else if str_eq(kind.as_str(), "remote-candidate") {
                if let Some(candidate_type) = &entry.candidate_type {
                    let translated = StatsEntry {
                        id: id.clone(),
                        report: StatsReportType::RemoteCandidate(
                            CandidateStats {
                                id: id.clone(),
                                candidate_type: CandidateType::from_label(candidate_type.as_str()),
                            },
                        ),
                    };
                    proof {
                        assert(translated@ =~= web_entry_translation(
                            reports.deep_view()[i as int],
                        )->0);
                    }
                    out.push(translated);
                }
            }
        }
        proof {
            assert(out.deep_view() =~= web_translation_seq(reports.deep_view().take(i + 1)));
        }
    }
    proof {
        assert(reports.deep_view().take(n as int) =~= reports.deep_view());
    }
    out
}

/// Law: raw entries none of which translates — a fresh, not-yet-negotiated
/// connection's report, whose kinds are all outside the supported set —
/// yield an empty mapping, not a failure.
pub proof fn lemma_native_no_supported_reports(s: Seq<NativeStatsEntryView>)
    requires
        forall|i: int| 0 <= i < s.len() ==> native_entry_translation(#[trigger] s[i]) is None,
    ensures
        native_translation_seq(s).len() == 0,
    decreases s.len(),
{
    if s.len() > 0 {
        assert(native_entry_translation(s[0]) is None);
        let t = s.subrange(1, s.len() as int);
        assert(s.drop_first() == t);
        assert forall|i: int|
            0 <= i < t.len() implies native_entry_translation(#[trigger] t[i]) is None by {
            assert(t[i] == s[i + 1]);
            assert(native_entry_translation(s[i + 1]) is None);
        }
        lemma_native_no_supported_reports(t);
    }
}

/// Law: raw event-object entries none of which translates yield an empty
/// mapping, not a failure.
pub proof fn lemma_web_no_supported_reports(s: Seq<WebStatsEntryView>)
    requires
        forall|i: int| 0 <= i < s.len() ==> web_entry_translation(#[trigger] s[i]) is None,
    ensures
        web_translation_seq(s).len() == 0,
    decreases s.len(),
{
    if s.len() > 0 {
        assert(web_entry_translation(s[0]) is None);
        let t = s.subrange(1, s.len() as int);
        assert(s.drop_first() == t);
        assert forall|i: int|
            0 <= i < t.len() implies web_entry_translation(#[trigger] t[i]) is None by {
            assert(t[i] == s[i + 1]);
            assert(web_entry_translation(s[i + 1]) is None);
        }
        lemma_web_no_supported_reports(t);
    }
}

} // verus!
