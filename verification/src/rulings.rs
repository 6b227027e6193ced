//! What other parts of the launcher have decided.
//!
//! Redaction, naming and the limits on evidence belong to other parts of the launcher. The state
//! that is kept here only asks for their verdicts, so the verdicts are handed in as a table.

use crate::record::{
    list_duplicate, list_has, list_same, opt_duplicate, opt_same, opt_view, views, Record,
};
use crate::text::same_text;
use vstd::prelude::*;

verus! {

/// How an identifier reads once it is made safe to show.
#[derive(Clone, Debug, PartialEq, Eq)]
pub struct SanitizedId {
    pub text: String,
    /// What stands in for the identifier where nothing of it may be shown.
    pub fallback: String,
    pub result: String,
}

/// The model of [`SanitizedId`].
pub struct SanitizedIdView {
    pub text: Seq<char>,
    pub fallback: Seq<char>,
    pub result: Seq<char>,
}

impl View for SanitizedId {
    type V = SanitizedIdView;

    open spec fn view(&self) -> SanitizedIdView {
        SanitizedIdView {
            text: self.text@,
            fallback: self.fallback@,
            result: self.result@,
        }
    }
}

impl Record for SanitizedId {
    fn same(&self, other: &Self) -> (r: bool) {
        self.text.same(&other.text)
            && self.fallback.same(&other.fallback)
            && self.result.same(&other.result)
    }

    fn duplicate(&self) -> (r: Self) {
        SanitizedId {
            text: self.text.duplicate(),
            fallback: self.fallback.duplicate(),
            result: self.result.duplicate(),
        }
    }
}

/// How a piece of evidence reads once it is made safe for a user's eyes.
#[derive(Clone, Debug, PartialEq, Eq)]
pub struct SanitizedEvidence {
    pub text: String,
    pub max_chars: usize,
    /// What remains, if anything does.
    pub result: Option<String>,
}

/// The model of [`SanitizedEvidence`].
pub struct SanitizedEvidenceView {
    pub text: Seq<char>,
    pub max_chars: usize,
    pub result: Option<Seq<char>>,
}

impl View for SanitizedEvidence {
    type V = SanitizedEvidenceView;

    open spec fn view(&self) -> SanitizedEvidenceView {
        SanitizedEvidenceView {
            text: self.text@,
            max_chars: self.max_chars,
            result: opt_view(self.result),
        }
    }
}

impl Record for SanitizedEvidence {
    fn same(&self, other: &Self) -> (r: bool) {
        self.text.same(&other.text)
            && self.max_chars == other.max_chars
            && opt_same(&self.result, &other.result)
    }

    fn duplicate(&self) -> (r: Self) {
        SanitizedEvidence {
            text: self.text.duplicate(),
            max_chars: self.max_chars,
            result: opt_duplicate(&self.result),
        }
    }
}

/// What other parts of the launcher have decided: verdicts on the texts at hand, and limits.
#[derive(Clone, Debug, PartialEq, Eq)]
pub struct LauncherRulings {
    pub sanitized_ids: Vec<SanitizedId>,
    pub sanitized_evidence: Vec<SanitizedEvidence>,
    /// Texts that look sensitive.
    pub sensitive_evidence: Vec<String>,
    /// Texts that are canonical instance identifiers.
    pub instance_ids: Vec<String>,
    /// Texts that are safe version identifiers.
    pub version_ids: Vec<String>,
    /// Texts that are canonical identifiers of an installed loader.
    pub installed_loader_ids: Vec<String>,
    /// Texts that name a loader build.
    pub loader_build_ids: Vec<String>,
    /// Texts that identify the evidence of a publication.
    pub publication_evidence_ids: Vec<String>,
    /// Texts that identify an activation contract.
    pub activation_contract_ids: Vec<String>,
    /// The most Guardian facts that a step may hold.
    pub max_guardian_fact_ids: usize,
    /// The most diagnoses that an entry may hold.
    pub max_guardian_diagnoses: usize,
}

/// The model of [`LauncherRulings`].
pub struct LauncherRulingsView {
    pub sanitized_ids: Seq<SanitizedIdView>,
    pub sanitized_evidence: Seq<SanitizedEvidenceView>,
    pub sensitive_evidence: Seq<Seq<char>>,
    pub instance_ids: Seq<Seq<char>>,
    pub version_ids: Seq<Seq<char>>,
    pub installed_loader_ids: Seq<Seq<char>>,
    pub loader_build_ids: Seq<Seq<char>>,
    pub publication_evidence_ids: Seq<Seq<char>>,
    pub activation_contract_ids: Seq<Seq<char>>,
    pub max_guardian_fact_ids: usize,
    pub max_guardian_diagnoses: usize,
}

impl View for LauncherRulings {
    type V = LauncherRulingsView;

    open spec fn view(&self) -> LauncherRulingsView {
        LauncherRulingsView {
            sanitized_ids: views(self.sanitized_ids@),
            sanitized_evidence: views(self.sanitized_evidence@),
            sensitive_evidence: views(self.sensitive_evidence@),
            instance_ids: views(self.instance_ids@),
            version_ids: views(self.version_ids@),
            installed_loader_ids: views(self.installed_loader_ids@),
            loader_build_ids: views(self.loader_build_ids@),
            publication_evidence_ids: views(self.publication_evidence_ids@),
            activation_contract_ids: views(self.activation_contract_ids@),
            max_guardian_fact_ids: self.max_guardian_fact_ids,
            max_guardian_diagnoses: self.max_guardian_diagnoses,
        }
    }
}

impl Record for LauncherRulings {
    fn same(&self, other: &Self) -> (r: bool) {
        list_same(&self.sanitized_ids, &other.sanitized_ids)
            && list_same(&self.sanitized_evidence, &other.sanitized_evidence)
            && list_same(&self.sensitive_evidence, &other.sensitive_evidence)
            && list_same(&self.instance_ids, &other.instance_ids)
            && list_same(&self.version_ids, &other.version_ids)
            && list_same(&self.installed_loader_ids, &other.installed_loader_ids)
            && list_same(&self.loader_build_ids, &other.loader_build_ids)
            && list_same(&self.publication_evidence_ids, &other.publication_evidence_ids)
            && list_same(&self.activation_contract_ids, &other.activation_contract_ids)
            && self.max_guardian_fact_ids == other.max_guardian_fact_ids
            && self.max_guardian_diagnoses == other.max_guardian_diagnoses
    }

    fn duplicate(&self) -> (r: Self) {
        LauncherRulings {
            sanitized_ids: list_duplicate(&self.sanitized_ids),
            sanitized_evidence: list_duplicate(&self.sanitized_evidence),
            sensitive_evidence: list_duplicate(&self.sensitive_evidence),
            instance_ids: list_duplicate(&self.instance_ids),
            version_ids: list_duplicate(&self.version_ids),
            installed_loader_ids: list_duplicate(&self.installed_loader_ids),
            loader_build_ids: list_duplicate(&self.loader_build_ids),
            publication_evidence_ids: list_duplicate(&self.publication_evidence_ids),
            activation_contract_ids: list_duplicate(&self.activation_contract_ids),
            max_guardian_fact_ids: self.max_guardian_fact_ids,
            max_guardian_diagnoses: self.max_guardian_diagnoses,
        }
    }
}

/// The ruling on an identifier, the first that is given; without one, the fallback.
pub open spec fn ruled_id(
    rulings: Seq<SanitizedIdView>,
    text: Seq<char>,
    fallback: Seq<char>,
) -> Seq<char>
    decreases rulings.len(),
{
    if rulings.len() == 0 {
        fallback
    } else if rulings[0].text == text && rulings[0].fallback == fallback {
        rulings[0].result
    } else {
        ruled_id(rulings.subrange(1, rulings.len() as int), text, fallback)
    }
}

/// The ruling on a piece of evidence, the first that is given; without one, nothing of it remains.
pub open spec fn ruled_evidence(
    rulings: Seq<SanitizedEvidenceView>,
    text: Seq<char>,
    max_chars: usize,
) -> Option<Seq<char>>
    decreases rulings.len(),
{
    if rulings.len() == 0 {
        None
    } else if rulings[0].text == text && rulings[0].max_chars == max_chars {
        rulings[0].result
    } else {
        ruled_evidence(rulings.subrange(1, rulings.len() as int), text, max_chars)
    }
}

impl LauncherRulings {
    /// No verdicts, only the two limits.
    pub fn new(max_guardian_fact_ids: usize, max_guardian_diagnoses: usize) -> (r: LauncherRulings)
        ensures
            r@ == (LauncherRulingsView {
                sanitized_ids: Seq::empty(),
                sanitized_evidence: Seq::empty(),
                sensitive_evidence: Seq::empty(),
                instance_ids: Seq::empty(),
                version_ids: Seq::empty(),
                installed_loader_ids: Seq::empty(),
                loader_build_ids: Seq::empty(),
                publication_evidence_ids: Seq::empty(),
                activation_contract_ids: Seq::empty(),
                max_guardian_fact_ids,
                max_guardian_diagnoses,
            }),
    {
        let r = LauncherRulings {
            sanitized_ids: Vec::new(),
            sanitized_evidence: Vec::new(),
            sensitive_evidence: Vec::new(),
            instance_ids: Vec::new(),
            version_ids: Vec::new(),
            installed_loader_ids: Vec::new(),
            loader_build_ids: Vec::new(),
            publication_evidence_ids: Vec::new(),
            activation_contract_ids: Vec::new(),
            max_guardian_fact_ids,
            max_guardian_diagnoses,
        };
        proof {
            assert(r@.sanitized_ids =~= Seq::empty());
            assert(r@.sanitized_evidence =~= Seq::empty());
            assert(r@.sensitive_evidence =~= Seq::empty());
            assert(r@.instance_ids =~= Seq::empty());
            assert(r@.version_ids =~= Seq::empty());
            assert(r@.installed_loader_ids =~= Seq::empty());
            assert(r@.loader_build_ids =~= Seq::empty());
            assert(r@.publication_evidence_ids =~= Seq::empty());
            assert(r@.activation_contract_ids =~= Seq::empty());
        }
        r
    }

    /// How an identifier reads once it is made safe to show.
    pub fn sanitize_target_id(&self, text: &str, fallback: &str) -> (r: String)
        ensures
            r@ == ruled_id(self@.sanitized_ids, text@, fallback@),
    {
        let mut i: usize = 0;
        let ghost all = self@.sanitized_ids;
        proof {
            assert(all.subrange(0, all.len() as int) =~= all);
        }
        while i < self.sanitized_ids.len()
            invariant
                i <= self.sanitized_ids.len(),
                all == views(self.sanitized_ids@),
                ruled_id(all, text@, fallback@) == ruled_id(
                    all.subrange(i as int, all.len() as int),
                    text@,
                    fallback@,
                ),
            decreases self.sanitized_ids.len() - i,
        {
            let ruling = &self.sanitized_ids[i];
            assert(all.subrange(i as int, all.len() as int)[0] == ruling@);
            if same_text(ruling.text.as_str(), text) && same_text(ruling.fallback.as_str(), fallback) {
                return ruling.result.duplicate();
            }
            assert(all.subrange(i as int, all.len() as int).subrange(1, all.len() - i)
                =~= all.subrange(i + 1, all.len() as int));
            i = i + 1;
        }
        fallback.to_owned()
    }

    /// How a piece of evidence reads once it is made safe for a user's eyes.
    pub fn sanitize_evidence_text(&self, text: &str, max_chars: usize) -> (r: Option<String>)
        ensures
            opt_view(r) == ruled_evidence(self@.sanitized_evidence, text@, max_chars),
    {
        let mut i: usize = 0;
        let ghost all = self@.sanitized_evidence;
        proof {
            assert(all.subrange(0, all.len() as int) =~= all);
        }
        while i < self.sanitized_evidence.len()
            invariant
                i <= self.sanitized_evidence.len(),
                all == views(self.sanitized_evidence@),
                ruled_evidence(all, text@, max_chars) == ruled_evidence(
                    all.subrange(i as int, all.len() as int),
                    text@,
                    max_chars,
                ),
            decreases self.sanitized_evidence.len() - i,
        {
            let ruling = &self.sanitized_evidence[i];
            assert(all.subrange(i as int, all.len() as int)[0] == ruling@);
            if same_text(ruling.text.as_str(), text) && ruling.max_chars == max_chars {
                return opt_duplicate(&ruling.result);
            }
            assert(all.subrange(i as int, all.len() as int).subrange(1, all.len() - i)
                =~= all.subrange(i + 1, all.len() as int));
            i = i + 1;
        }
        None
    }
}

/// Whether a list of texts holds a given text.
pub fn lists_text(list: &Vec<String>, text: &str) -> (r: bool)
    ensures
        r == views(list@).contains(text@),
{
    let owned = text.to_owned();
    list_has(list, &owned)
}

} // verus!
