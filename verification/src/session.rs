//! Agent session snapshot.
use vstd::prelude::*;
use std::time::SystemTime;

verus! {

/// A point in time, by the clock of the system.
#[verifier::external_type_specification]
#[verifier::external_body]
pub struct ExSystemTime(std::time::SystemTime);

/// A session snapshot, as mathematical values.
pub struct SessionView {
    /// Server-assigned session ID.
    pub id: Seq<char>,
    /// Non-fatal warnings returned by ngrok cloud during auth.
    pub warnings: Seq<Seq<char>>,
    /// When the session was established.
    pub started_at: SystemTime,
}

/// An immutable snapshot of a connected ngrok session.
#[derive(Debug)]
pub struct AgentSession {
    /// Server-assigned session ID.
    pub id: String,
    /// Non-fatal warnings returned by ngrok cloud during auth.
    pub warnings: Vec<String>,
    /// When the session was established.
    pub started_at: SystemTime,
}

impl View for AgentSession {
    type V = SessionView;

    open spec fn view(&self) -> SessionView {
        SessionView {
            id: self.id@,
            warnings: self.warnings.deep_view(),
            started_at: self.started_at,
        }
    }
}

impl Clone for AgentSession {
    fn clone(&self) -> (r: AgentSession)
        ensures
            r@ == self@,
    {
        let r = AgentSession {
            id: self.id.clone(),
            warnings: self.warnings.clone(),
            started_at: self.started_at,
        };
        assert(r.warnings.deep_view() =~= self.warnings.deep_view());
        r
    }
}

impl AgentSession {
    /// Server-assigned session ID.
    pub fn id(&self) -> (r: &str)
        ensures
            r@ == self@.id,
    {
        self.id.as_str()
    }

    /// Non-fatal warnings returned by ngrok cloud during auth.
    pub fn warnings(&self) -> (r: &[String])
        ensures
            r@ == self.warnings@,
    {
        self.warnings.as_slice()
    }

    /// When the session was established.
    pub fn started_at(&self) -> (r: SystemTime)
        ensures
            r == self@.started_at,
    {
        self.started_at
    }
}

/// A session snapshot is what it holds.
pub proof fn session_is_what_it_holds(s: AgentSession)
    ensures
        s@.id == s.id@ && s@.started_at == s.started_at,
        s@.warnings.len() == s.warnings@.len(),
        forall|i: int| 0 <= i < s.warnings@.len() ==> #[trigger] s@.warnings[i] == s.warnings@[i]@,
{
}

} // verus!
