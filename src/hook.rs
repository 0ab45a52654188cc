use vstd::prelude::*;

verus! {

/// One-time gate for installing the process-wide crash hook: the first
/// claim is granted, every later one refused.
pub struct HookGate {
    pub installed: bool,
}

/// A claim on `gate` is granted.
pub open spec fn grants(gate: HookGate) -> bool {
    !gate.installed
}

/// The state of `gate` once a claim has been made on it.
pub open spec fn claimed(gate: HookGate) -> HookGate {
    HookGate { installed: true }
}

/// How many of two claims in a row, starting from `gate`, are granted.
pub open spec fn grants_in_two_claims(gate: HookGate) -> nat {
    (if grants(gate) { 1nat } else { 0nat }) + (if grants(claimed(gate)) { 1nat } else { 0nat })
}

impl HookGate {
    /// A gate through which nothing has been installed yet.
    pub fn new() -> (g: HookGate)
        ensures
            grants(g),
    {
        HookGate { installed: false }
    }

    /// Claims the right to install; returns whether it was granted.
    pub fn claim(&mut self) -> (granted: bool)
        ensures
            granted == grants(*old(self)),
            *final(self) == claimed(*old(self)),
    {
        let granted = !self.installed;
        self.installed = true;
        granted
    }
}

/// Installing twice installs once: of two claims on a fresh gate exactly one
/// is granted, and on a gate already used none is.
pub proof fn lemma_installed_once(gate: HookGate)
    ensures
        grants_in_two_claims(gate) == if gate.installed { 0nat } else { 1nat },
        !grants(claimed(gate)),
{
}

/// The text of a fatal crash event: the crash's message where it carried
/// one as text, `"Unknown panic"` otherwise.
pub open spec fn fatal_text(payload: Option<Seq<char>>) -> Seq<char> {
    match payload {
        Some(s) => s,
        None => "Unknown panic"@,
    }
}

/// Picks the text that a crash is reported with.
pub fn fatal_message<'a>(payload: Option<&'a str>) -> (m: &'a str)
    ensures
        m@ == fatal_text(
            match payload {
                Some(s) => Some(s@),
                None => None,
            },
        ),
{
    match payload {
        Some(s) => s,
        None => "Unknown panic",
    }
}

} // verus!
