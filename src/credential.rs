//! Where the provider credential comes from, and the single-assignment cache
//! that makes a key command run at most once.
use vstd::prelude::*;
use vstd::string::*;
use crate::error::LambdaError;
use crate::text::{given, is_given, trim, trim_spec};

verus! {

/// Source of the API key: the key itself, or a shell command that prints it.
#[derive(Debug, Clone)]
pub enum ApiKeySource {
    Direct(String),
    Command(String),
}

/// What a caller must do to obtain the key.
#[derive(Debug, Clone)]
pub enum KeyStep {
    /// The key is known.
    Ready(String),
    /// The command must be run and its outcome recorded.
    RunCommand(String),
}

/// How a run of the key command ended.
#[derive(Debug, Clone)]
pub enum CommandOutput {
    /// The command ran: whether it exited successfully, and what it printed.
    Ran { success: bool, stdout: String, stderr: String },
    /// The command could not be started; the system's error text.
    NotStarted(String),
}

/// The key read from a run of the key command, or the detail of its failure.
pub open spec fn key_from_output_spec(o: CommandOutput) -> Result<Seq<char>, Seq<char>> {
    match o {
        CommandOutput::Ran { success, stdout, stderr } => if !success {
            Err("Command failed: "@ + trim_spec(stderr@))
        } else if trim_spec(stdout@).len() == 0 {
            Err("Command returned empty output"@)
        } else {
            Ok(trim_spec(stdout@))
        },
        CommandOutput::NotStarted(e) => Err("Failed to execute command: "@ + e@),
    }
}

/// Reads the key out of a run of the key command: its trimmed output when
/// the command succeeded and printed something; otherwise a command failure.
pub fn key_from_output(output: CommandOutput) -> (r: Result<String, LambdaError>)
    ensures
        match key_from_output_spec(output) {
            Ok(k) => r is Ok && r->Ok_0@ == k,
            Err(d) => r is Err && r->Err_0 is ApiKeyCommandFailed
                && r->Err_0->ApiKeyCommandFailed_0@ == d,
        },
{
    match output {
        CommandOutput::Ran { success, stdout, stderr } => {
            if !success {
                let detail = trim(stderr.as_str());
                let mut msg = String::from_str("Command failed: ");
                msg.append(detail.as_str());
                Err(LambdaError::ApiKeyCommandFailed(msg))
            } else {
                let key = trim(stdout.as_str());
                if key.unicode_len() == 0 {
                    Err(
                        LambdaError::ApiKeyCommandFailed(
                            String::from_str("Command returned empty output"),
                        ),
                    )
                } else {
                    Ok(key)
                }
            }
        },
        CommandOutput::NotStarted(e) => {
            let mut msg = String::from_str("Failed to execute command: ");
            msg.append(e.as_str());
            Err(LambdaError::ApiKeyCommandFailed(msg))
        },
    }
}

/// Resolves the API key on demand. A direct key is handed out as it is; a
/// key command runs only until it has once produced a key, which is then
/// kept for every later request.
pub struct CredentialResolver {
    source: ApiKeySource,
    cached: Option<String>,
}

/// The key known without running anything, if there is one.
pub open spec fn known_key(source: ApiKeySource, cache: Option<Seq<char>>) -> Option<Seq<char>> {
    match source {
        ApiKeySource::Direct(k) => Some(k@),
        ApiKeySource::Command(_) => cache,
    }
}

/// The key that a run produced, if it produced one.
pub open spec fn produced_key(outcome: Result<String, LambdaError>) -> Option<Seq<char>> {
    match outcome {
        Ok(k) => Some(k@),
        Err(_) => None,
    }
}

/// The cache after recording a run: a produced key is kept, a failure leaves
/// it as it was.
pub open spec fn cache_after(cache: Option<Seq<char>>, produced: Option<Seq<char>>) -> Option<
    Seq<char>,
> {
    match produced {
        Some(k) => Some(k),
        None => cache,
    }
}

impl CredentialResolver {
    /// The configured source.
    pub closed spec fn source(&self) -> ApiKeySource {
        self.source
    }

    /// The key that a run of the command produced, once it has.
    pub closed spec fn cache(&self) -> Option<Seq<char>> {
        match self.cached {
            Some(k) => Some(k@),
            None => None,
        }
    }

    /// A resolver that hands out `key`.
    pub fn direct(key: String) -> (r: CredentialResolver)
        ensures
            r.source() == ApiKeySource::Direct(key),
            r.cache() is None,
    {
        CredentialResolver { source: ApiKeySource::Direct(key), cached: None }
    }

    /// A resolver over `source`, with nothing resolved yet.
    pub fn new(source: ApiKeySource) -> (r: CredentialResolver)
        ensures
            r.source() == source,
            r.cache() is None,
    {
        CredentialResolver { source, cached: None }
    }

    /// Picks the source from the settings: a non-empty direct key first, then
    /// a non-empty key command; with neither the key is not set.
    pub fn from_values(direct: Option<String>, command: Option<String>) -> (r: Result<
        CredentialResolver,
        LambdaError,
    >)
        ensures
            given(direct) ==> r is Ok && r->Ok_0.source() == ApiKeySource::Direct(direct->0),
            !given(direct) && given(command) ==> r is Ok && r->Ok_0.source()
                == ApiKeySource::Command(command->0),
            !given(direct) && !given(command) ==> r is Err && r->Err_0 is ApiKeyNotSet,
            r is Ok ==> r->Ok_0.cache() is None,
    {
        let has_direct = is_given(&direct);
        let has_command = is_given(&command);
        match (direct, command) {
            (Some(k), _) if has_direct => Ok(CredentialResolver::direct(k)),
            (_, Some(c)) if has_command => Ok(CredentialResolver::new(ApiKeySource::Command(c))),
            _ => Err(LambdaError::ApiKeyNotSet),
        }
    }

    /// What obtaining the key takes now: the known key, or a run of the
    /// command when none is known yet.
    pub fn next_step(&self) -> (r: KeyStep)
        ensures
            r is Ready <==> known_key(self.source(), self.cache()) is Some,
            r is Ready ==> r->Ready_0@ == known_key(self.source(), self.cache())->0,
            r is RunCommand ==> self.source() is Command && r->RunCommand_0
                == self.source()->Command_0,
    {
        match &self.source {
            ApiKeySource::Direct(k) => KeyStep::Ready(k.clone()),
            ApiKeySource::Command(c) => match &self.cached {
                Some(k) => KeyStep::Ready(k.clone()),
                None => KeyStep::RunCommand(c.clone()),
            },
        }
    }

    /// Records the outcome of the run that `next_step` asked for, and hands
    /// it on. A key is kept; after a failure the next request runs the
    /// command again.
    pub fn record(&mut self, outcome: Result<String, LambdaError>) -> (r: Result<String, LambdaError>)
        requires
            known_key(old(self).source(), old(self).cache()) is None,
        ensures
            final(self).source() == old(self).source(),
            final(self).cache() == cache_after(old(self).cache(), produced_key(outcome)),
            r == outcome,
    {
        match outcome {
            Ok(k) => {
                self.cached = Some(k.clone());
                Ok(k)
            },
            Err(e) => Err(e),
        }
    }
}

/// A command source runs its command once: with nothing resolved the key
/// takes a run; once a run has produced a key, every later request knows that
/// same key, so no further run is asked for (and `record` admits none).
pub proof fn lemma_command_runs_once(cmd: String, key: Seq<char>)
    ensures
        known_key(ApiKeySource::Command(cmd), None) is None,
        known_key(ApiKeySource::Command(cmd), cache_after(None, None)) is None,
        known_key(ApiKeySource::Command(cmd), cache_after(None, Some(key))) == Some(key),
{
}

} // verus!
