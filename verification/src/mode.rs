use vstd::prelude::*;

verus! {

/// Which of the four modes a run of the client drives. Mining deposits
/// only; Claim claims only; Exit withdraws or cancels pending deposits;
/// Interactive delegates to a higher-level menu.
#[derive(Clone, Copy, Debug, PartialEq, Eq, Structural)]
pub enum RunMode {
    Mining,
    Claim,
    Exit,
    Interactive,
}

impl RunMode {
    /// The mode's display name.
    pub open spec fn label_spec(self) -> Seq<char> {
        match self {
            RunMode::Mining => "Mining"@,
            RunMode::Claim => "Claim"@,
            RunMode::Exit => "Exit"@,
            RunMode::Interactive => "Interactive"@,
        }
    }

    pub fn label(&self) -> (s: String)
        ensures
            s@ == self.label_spec(),
    {
        match self {
            RunMode::Mining => "Mining".to_owned(),
            RunMode::Claim => "Claim".to_owned(),
            RunMode::Exit => "Exit".to_owned(),
            RunMode::Interactive => "Interactive".to_owned(),
        }
    }
}

} // verus!
