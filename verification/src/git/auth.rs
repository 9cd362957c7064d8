use vstd::prelude::*;
use vstd::string::StringExecFns;

use crate::git::models::{GitError, GitErrorView};
use crate::text::{is_blank, str_contains_char, str_is_blank};

verus! {

/// The handle of a temporary file, `tempfile::TempPath`, as an opaque
/// value: dropping it removes the file.
#[verifier::external_type_specification]
#[verifier::external_body]
pub struct ExTempPath(tempfile::TempPath);

/// Whether each key stands once among the pairs.
pub open spec fn distinct_keys(pairs: Seq<(Seq<char>, Seq<char>)>) -> bool {
    forall|i: int, j: int|
        0 <= i < pairs.len() && 0 <= j < pairs.len() && i != j ==> (#[trigger] pairs[i]).0 != (
        #[trigger] pairs[j]).0
}

/// Whether `key` is the key of one of the pairs.
pub open spec fn has_key(pairs: Seq<(Seq<char>, Seq<char>)>, key: Seq<char>) -> bool {
    exists|i: int| 0 <= i < pairs.len() && (#[trigger] pairs[i]).0 == key
}

/// The position of a pair whose key is `key`.
pub open spec fn index_of_key(pairs: Seq<(Seq<char>, Seq<char>)>, key: Seq<char>) -> int {
    choose|i: int| 0 <= i < pairs.len() && (#[trigger] pairs[i]).0 == key
}

/// The mapping that the pairs stand for.
pub open spec fn map_of(pairs: Seq<(Seq<char>, Seq<char>)>) -> Map<Seq<char>, Seq<char>> {
    Map::new(
        |key: Seq<char>| has_key(pairs, key),
        |key: Seq<char>| pairs[index_of_key(pairs, key)].1,
    )
}

/// Environment variables for a child process: a finite mapping from names to
/// values.
#[derive(Debug)]
pub struct EnvMap {
    pairs: Vec<(String, String)>,
}

impl View for EnvMap {
    type V = Map<Seq<char>, Seq<char>>;

    closed spec fn view(&self) -> Map<Seq<char>, Seq<char>> {
        map_of(self.pairs.deep_view())
    }
}

impl EnvMap {
    #[verifier::type_invariant]
    spec fn keys_are_distinct(self) -> bool {
        distinct_keys(self.pairs.deep_view())
    }

    /// The mapping without any variable.
    pub fn new() -> (r: Self)
        ensures
            r@ == Map::<Seq<char>, Seq<char>>::empty(),
    {
        let r = EnvMap { pairs: Vec::new() };
        assert(r@ =~= Map::<Seq<char>, Seq<char>>::empty());
        r
    }

    /// Gives `key` the value `value`, in place of the value it had, if any.
    pub fn insert(&mut self, key: String, value: String)
        ensures
            final(self)@ == old(self)@.insert(key@, value@),
    {
        proof {
            use_type_invariant(&*self);
        }
        let mut pairs: Vec<(String, String)> = Vec::new();
        core::mem::swap(&mut self.pairs, &mut pairs);
        let pairs = insert_pair(pairs, key, value);
        self.pairs = pairs;
    }

    /// The value of `key`, if it has one.
    pub fn get(&self, key: &str) -> (r: Option<String>)
        ensures
            r.deep_view() == if self@.contains_key(key@) {
                Some(self@[key@])
            } else {
                None
            },
    {
        proof {
            use_type_invariant(self);
        }
        let ghost pairs = self.pairs.deep_view();
        let wanted = key.to_owned();
        let mut i: usize = 0;
        while i < self.pairs.len()
            invariant
                i <= self.pairs@.len(),
                pairs == self.pairs.deep_view(),
                distinct_keys(pairs),
                wanted@ == key@,
                forall|k: int| 0 <= k < i ==> (#[trigger] pairs[k]).0 != key@,
            decreases self.pairs@.len() - i,
        {
            if self.pairs[i].0 == wanted {
                proof {
                    assert(pairs[i as int].0 == key@);
                    let o = index_of_key(pairs, key@);
                    assert(pairs[o].0 == pairs[i as int].0);
                }
                return Some(self.pairs[i].1.clone());
            }
            i += 1;
        }
        None
    }

    /// The number of variables.
    pub fn len(&self) -> (r: usize)
        ensures
            self@.dom().finite(),
            r == self@.dom().len(),
    {
        proof {
            use_type_invariant(self);
            lemma_map_of_size(self.pairs.deep_view());
        }
        self.pairs.len()
    }

    /// The variables as pairs of name and value, each name once.
    pub fn pairs(&self) -> (r: Vec<(String, String)>)
        ensures
            distinct_keys(r.deep_view()),
            map_of(r.deep_view()) == self@,
    {
        proof {
            use_type_invariant(self);
        }
        let mut out: Vec<(String, String)> = Vec::new();
        let mut i: usize = 0;
        while i < self.pairs.len()
            invariant
                i <= self.pairs@.len(),
                out.deep_view() =~= self.pairs.deep_view().take(i as int),
            decreases self.pairs@.len() - i,
        {
            let ghost before = out.deep_view();
            let pair = (self.pairs[i].0.clone(), self.pairs[i].1.clone());
            out.push(pair);
            proof {
                assert(out.deep_view() =~= before.push(pair.deep_view()));
            }
            i += 1;
        }
        proof {
            assert(self.pairs.deep_view().take(self.pairs@.len() as int)
                =~= self.pairs.deep_view());
        }
        out
    }
}

/// The pairs with `key` given the value `value`, in place of the pair that
/// had the key, if any.
fn insert_pair(given: Vec<(String, String)>, key: String, value: String) -> (r: Vec<
    (String, String),
>)
    requires
        distinct_keys(given.deep_view()),
    ensures
        distinct_keys(r.deep_view()),
        map_of(r.deep_view()) == map_of(given.deep_view()).insert(key@, value@),
{
    let ghost before = given.deep_view();
    let mut pairs = given;
    let mut i: usize = 0;
    while i < pairs.len()
        invariant
            i <= pairs@.len(),
            pairs.deep_view() == before,
            before == given.deep_view(),
            distinct_keys(before),
            forall|k: int| 0 <= k < i ==> (#[trigger] before[k]).0 != key@,
        decreases pairs@.len() - i,
    {
        if pairs[i].0 == key {
            assert(before[i as int].0 == key@);
            pairs.remove(i);
            pairs.push((key, value));
            proof {
                let after = pairs.deep_view();
                let n = before.len() as int;
                assert(after =~= before.remove(i as int).push((key@, value@)));
                assert(after[n - 1] == (key@, value@));
                assert forall|a: int, b: int|
                    0 <= a < after.len() && 0 <= b < after.len() && a != b implies (
                #[trigger] after[a]).0 != (#[trigger] after[b]).0 by {
                    let oa = if a < i { a } else { a + 1 };
                    let ob = if b < i { b } else { b + 1 };
                    if a == n - 1 {
                        assert(after[b] == before[ob]);
                        assert(before[ob].0 != before[i as int].0);
                    } else if b == n - 1 {
                        assert(after[a] == before[oa]);
                        assert(before[oa].0 != before[i as int].0);
                    } else {
                        assert(after[a] == before[oa]);
                        assert(after[b] == before[ob]);
                    }
                }
                assert forall|k: Seq<char>|
                    has_key(after, k) == (has_key(before, k) || k == key@) by {
                    if has_key(after, k) && k != key@ {
                        let a = index_of_key(after, k);
                        let oa = if a < i { a } else { a + 1 };
                        assert(after[a] == before[oa]);
                    }
                    if has_key(before, k) && k != key@ {
                        let o = index_of_key(before, k);
                        let a = if o < i { o } else { o - 1 };
                        assert(after[a] == before[o]);
                    }
                }
                assert forall|k: Seq<char>| has_key(after, k) implies #[trigger] map_of(after)[k]
                    == map_of(before).insert(key@, value@)[k] by {
                    let a = index_of_key(after, k);
                    if k == key@ {
                        assert(after[a].0 == after[n - 1].0);
                    } else {
                        let oa = if a < i { a } else { a + 1 };
                        assert(after[a] == before[oa]);
                        let o = index_of_key(before, k);
                        assert(before[o].0 == before[oa].0);
                    }
                }
                assert(map_of(after) =~= map_of(before).insert(key@, value@));
            }
            return pairs;
        }
        i += 1;
    }
    pairs.push((key, value));
    proof {
        let after = pairs.deep_view();
        let n = before.len() as int;
        assert(after =~= before.push((key@, value@)));
        assert forall|a: int, b: int|
            0 <= a < after.len() && 0 <= b < after.len() && a != b implies (#[trigger] after[a]).0
            != (#[trigger] after[b]).0 by {
            if a < n {
                assert(after[a] == before[a]);
            }
            if b < n {
                assert(after[b] == before[b]);
            }
        }
        assert forall|k: Seq<char>| has_key(after, k) == (has_key(before, k) || k == key@) by {
            if has_key(after, k) && k != key@ {
                let a = index_of_key(after, k);
                assert(after[a] == before[a]);
            }
            if has_key(before, k) {
                let o = index_of_key(before, k);
                assert(after[o] == before[o]);
            }
            if k == key@ {
                assert(after[n].0 == k);
            }
        }
        assert forall|k: Seq<char>| has_key(after, k) implies #[trigger] map_of(after)[k]
            == map_of(before).insert(key@, value@)[k] by {
            let a = index_of_key(after, k);
            if k == key@ {
                assert(after[n].0 == k);
                assert(a == n);
            } else {
                assert(after[a] == before[a]);
                let o = index_of_key(before, k);
                assert(before[o].0 == before[a].0);
            }
        }
        assert(map_of(after) =~= map_of(before).insert(key@, value@));
    }
    pairs
}

/// A list of pairs with distinct keys stands for a mapping of as many keys.
pub proof fn lemma_map_of_size(pairs: Seq<(Seq<char>, Seq<char>)>)
    requires
        distinct_keys(pairs),
    ensures
        map_of(pairs).dom().finite(),
        map_of(pairs).dom().len() == pairs.len(),
    decreases pairs.len(),
{
    if pairs.len() == 0 {
        assert(map_of(pairs).dom() =~= Set::<Seq<char>>::empty());
    } else {
        let head = pairs.drop_last();
        let last = pairs.last();
        assert forall|i: int, j: int|
            0 <= i < head.len() && 0 <= j < head.len() && i != j implies (#[trigger] head[i]).0 != (
        #[trigger] head[j]).0 by {
            assert(head[i] == pairs[i]);
            assert(head[j] == pairs[j]);
        }
        lemma_map_of_size(head);
        assert forall|k: Seq<char>|
            map_of(pairs).dom().contains(k) == map_of(head).dom().insert(last.0).contains(k) by {
            if has_key(pairs, k) {
                let i = index_of_key(pairs, k);
                if i < head.len() {
                    assert(head[i].0 == k);
                }
            }
            if has_key(head, k) {
                let i = index_of_key(head, k);
                assert(pairs[i].0 == k);
            }
            if k == last.0 {
                assert(pairs[pairs.len() - 1].0 == k);
            }
        }
        assert(map_of(pairs).dom() =~= map_of(head).dom().insert(last.0));
        if has_key(head, last.0) {
            let i = index_of_key(head, last.0);
            assert(pairs[i].0 == pairs[pairs.len() - 1].0);
        }
    }
}

/// `base` with every variable of `extra` added; where both name a variable,
/// the value in `extra` stands.
pub fn merge_auth_env(base: EnvMap, extra: &EnvMap) -> (r: EnvMap)
    ensures
        r@ == base@.union_prefer_right(extra@),
{
    let pairs = extra.pairs();
    let ghost all = pairs.deep_view();
    let mut merged = base;
    let mut i: usize = 0;
    proof {
        assert(merged@ =~= base@.union_prefer_right(map_of(all.take(0))));
    }
    while i < pairs.len()
        invariant
            i <= pairs@.len(),
            all == pairs.deep_view(),
            distinct_keys(all),
            merged@ == base@.union_prefer_right(map_of(all.take(i as int))),
        decreases pairs@.len() - i,
    {
        let key = pairs[i].0.clone();
        let value = pairs[i].1.clone();
        merged.insert(key, value);
        proof {
            let head = all.take(i as int);
            let next = all.take(i + 1);
            assert(next[i as int] == all[i as int]);
            assert forall|k: Seq<char>| has_key(next, k) == (has_key(head, k) || k == key@) by {
                if has_key(next, k) && k != key@ {
                    let a = index_of_key(next, k);
                    assert(next[a] == all[a]);
                    assert(head[a] == all[a]);
                }
                if has_key(head, k) {
                    let a = index_of_key(head, k);
                    assert(head[a] == all[a]);
                    assert(next[a] == all[a]);
                }
            }
            assert forall|k: Seq<char>| has_key(next, k) implies #[trigger] map_of(next)[k]
                == map_of(head).insert(key@, value@)[k] by {
                let a = index_of_key(next, k);
                assert(next[a] == all[a]);
                if k != key@ {
                    assert(head[a] == all[a]);
                    let o = index_of_key(head, k);
                    assert(head[o] == all[o]);
                }
            }
            assert(map_of(next) =~= map_of(head).insert(key@, value@));
            assert(merged@ =~= base@.union_prefer_right(map_of(next)));
        }
        i += 1;
    }
    proof {
        assert(all.take(pairs@.len() as int) =~= all);
    }
    merged
}

/// The cleanup handles of `existing` followed by those of `extra`.
pub fn collect_cleanup(existing: Vec<tempfile::TempPath>, extra: Vec<tempfile::TempPath>) -> (r:
    Vec<tempfile::TempPath>)
    ensures
        r@ == existing@ + extra@,
{
    let mut all = existing;
    let mut more = extra;
    all.append(&mut more);
    all
}

/// The kind of system that the child process runs on, as far as the
/// credential hook and the fallback executable depend on it.
#[derive(Clone, Copy, Debug)]
pub enum Platform {
    Windows,
    Unix,
}

/// How the tool is to authenticate.
#[derive(Debug, Clone)]
#[allow(inconsistent_fields)]
pub enum GitAuth {
    Token { token: String, username: Option<String> },
    UserPassword { username: String, password: String },
    SshCommand { command: String },
}

/// The credential hook script that has to exist while the tool runs.
#[derive(Debug)]
pub struct AskpassScript {
    /// How the name of the script file begins.
    pub prefix: String,
    /// How the name of the script file ends.
    pub suffix: String,
    /// The text of the script.
    pub contents: String,
    /// Whether the file is to be readable, writable and executable by its
    /// owner and by nobody else.
    pub owner_only: bool,
}

/// The mathematical value of an `AskpassScript`.
pub struct AskpassScriptView {
    pub prefix: Seq<char>,
    pub suffix: Seq<char>,
    pub contents: Seq<char>,
    pub owner_only: bool,
}

impl DeepView for AskpassScript {
    type V = AskpassScriptView;

    open spec fn deep_view(&self) -> AskpassScriptView {
        AskpassScriptView {
            prefix: self.prefix@,
            suffix: self.suffix@,
            contents: self.contents@,
            owner_only: self.owner_only,
        }
    }
}

/// Credentials made ready for one invocation: the variables for the child
/// process and the handles of the files to remove once it has exited.
#[derive(Debug)]
pub struct PreparedAuth {
    pub env: EnvMap,
    pub cleanup: Vec<tempfile::TempPath>,
}

/// Credentials that still lack their hook script.
#[derive(Debug)]
pub struct PendingAskpass {
    pub env: EnvMap,
    pub script: AskpassScript,
}

/// What is left to do before credentials can be used.
#[derive(Debug)]
pub enum AuthPlan {
    /// Nothing: the credentials are ready.
    Ready(PreparedAuth),
    /// The hook script has to be written to a fresh temporary file.
    Askpass(PendingAskpass),
}

/// The text of the credential hook script.
pub open spec fn askpass_text(platform: Platform) -> Seq<char> {
    match platform {
        Platform::Windows =>
            "@echo off\nset prompt=%1\necho %prompt%| findstr /I \"Username\" >nul\nif %errorlevel%==0 (\n  echo %TAURI_GIT_USERNAME%\n) else (\n  echo %TAURI_GIT_PASSWORD%\n)\n"@,
        Platform::Unix =>
            "#!/bin/sh\ncase \"$1\" in\n  *Username* ) printf '%s\\n' \"$TAURI_GIT_USERNAME\" ;;\n  *username* ) printf '%s\\n' \"$TAURI_GIT_USERNAME\" ;;\n  * ) printf '%s\\n' \"$TAURI_GIT_PASSWORD\" ;;\nesac\n"@,
    }
}

/// The credential hook script for a platform.
pub open spec fn askpass_script(platform: Platform) -> AskpassScriptView {
    match platform {
        Platform::Windows => AskpassScriptView {
            prefix: "projectlib-askpass-"@,
            suffix: ".cmd"@,
            contents: askpass_text(platform),
            owner_only: false,
        },
        Platform::Unix => AskpassScriptView {
            prefix: "projectlib-askpass-"@,
            suffix: ""@,
            contents: askpass_text(platform),
            owner_only: true,
        },
    }
}

/// The variables that hand a user name and a secret to the hook script and
/// switch off the prompt on the terminal.
pub open spec fn askpass_env(username: Seq<char>, secret: Seq<char>) -> Map<Seq<char>, Seq<char>> {
    Map::empty().insert("TAURI_GIT_USERNAME"@, username).insert(
        "TAURI_GIT_PASSWORD"@,
        secret,
    ).insert("GIT_TERMINAL_PROMPT"@, "0"@)
}

/// The variable that overrides the transport command.
pub open spec fn ssh_env(command: Seq<char>) -> Map<Seq<char>, Seq<char>> {
    Map::empty().insert("GIT_SSH_COMMAND"@, command)
}

/// The user name that goes with a token for which none was given.
pub open spec fn default_username() -> Seq<char> {
    "git"@
}

impl PreparedAuth {
    /// No variables and nothing to clean up.
    pub fn empty() -> (r: Self)
        ensures
            r.env@ == Map::<Seq<char>, Seq<char>>::empty(),
            r.cleanup@.len() == 0,
    {
        PreparedAuth { env: EnvMap::new(), cleanup: Vec::new() }
    }
}

impl PendingAskpass {
    /// The credentials, once the script stands at `script_path`: the hook
    /// variable points at it, and `handle` is what removes it.
    pub fn install(self, script_path: String, handle: tempfile::TempPath) -> (r: PreparedAuth)
        ensures
            r.env@ == self.env@.insert("GIT_ASKPASS"@, script_path@),
            r.cleanup@ == seq![handle],
    {
        let mut env = self.env;
        env.insert(String::from_str("GIT_ASKPASS"), script_path);
        let mut cleanup: Vec<tempfile::TempPath> = Vec::new();
        cleanup.push(handle);
        assert(cleanup@ =~= seq![handle]);
        PreparedAuth { env, cleanup }
    }
}

impl GitAuth {
    /// The user name and the secret that the hook script is to answer with.
    pub open spec fn askpass_pair(&self) -> Option<(Seq<char>, Seq<char>)> {
        match self {
            GitAuth::Token { token, username } => Some(
                (
                    match username {
                        Some(name) => name@,
                        None => default_username(),
                    },
                    token@,
                ),
            ),
            GitAuth::UserPassword { username, password } => Some((username@, password@)),
            GitAuth::SshCommand { command } => None,
        }
    }

    /// Checks the descriptor and says what credentials it gives. A token or
    /// a password needs the hook script; a user name or secret that holds a
    /// NUL character is refused. A transport command needs no file; a blank
    /// one is refused.
    pub fn prepare(&self, platform: Platform) -> (r: Result<AuthPlan, GitError>)
        ensures
            match self.askpass_pair() {
                Some((username, secret)) => if username.contains('\0') || secret.contains('\0') {
                    r is Err && r->Err_0.deep_view() == GitErrorView::InvalidArgument(
                        "credential values may not contain null bytes"@,
                    )
                } else {
                    r is Ok && r->Ok_0 is Askpass && r->Ok_0->Askpass_0.env@ == askpass_env(
                        username,
                        secret,
                    ) && r->Ok_0->Askpass_0.script.deep_view() == askpass_script(platform)
                },
                None => if is_blank(self->SshCommand_command@) {
                    r is Err && r->Err_0.deep_view() == GitErrorView::InvalidArgument(
                        "SSH command override must not be empty"@,
                    )
                } else {
                    r is Ok && r->Ok_0 is Ready && r->Ok_0->Ready_0.env@ == ssh_env(
                        self->SshCommand_command@,
                    ) && r->Ok_0->Ready_0.cleanup@.len() == 0
                },
            },
    {
        match self {
            GitAuth::Token { token, username } => {
                match username {
                    Some(name) => Self::prepare_askpass(name.as_str(), token.as_str(), platform),
                    None => Self::prepare_askpass("git", token.as_str(), platform),
                }
            },
            GitAuth::UserPassword { username, password } => {
                Self::prepare_askpass(username.as_str(), password.as_str(), platform)
            },
            GitAuth::SshCommand { command } => {
                if str_is_blank(command.as_str()) {
                    return Err(
                        GitError::InvalidArgument(
                            String::from_str("SSH command override must not be empty"),
                        ),
                    );
                }
                let mut env = EnvMap::new();
                env.insert(String::from_str("GIT_SSH_COMMAND"), command.clone());
                Ok(AuthPlan::Ready(PreparedAuth { env, cleanup: Vec::new() }))
            },
        }
    }

    /// Checks a user name and a secret and says what the hook script needs.
    pub fn prepare_askpass(username: &str, secret: &str, platform: Platform) -> (r: Result<
        AuthPlan,
        GitError,
    >)
        ensures
            if username@.contains('\0') || secret@.contains('\0') {
                r is Err && r->Err_0.deep_view() == GitErrorView::InvalidArgument(
                    "credential values may not contain null bytes"@,
                )
            } else {
                r is Ok && r->Ok_0 is Askpass && r->Ok_0->Askpass_0.env@ == askpass_env(
                    username@,
                    secret@,
                ) && r->Ok_0->Askpass_0.script.deep_view() == askpass_script(platform)
            },
    {
        if str_contains_char(username, '\0') || str_contains_char(secret, '\0') {
            return Err(
                GitError::InvalidArgument(
                    String::from_str("credential values may not contain null bytes"),
                ),
            );
        }
        let mut env = EnvMap::new();
        env.insert(String::from_str("TAURI_GIT_USERNAME"), String::from_str(username));
        env.insert(String::from_str("TAURI_GIT_PASSWORD"), String::from_str(secret));
        env.insert(String::from_str("GIT_TERMINAL_PROMPT"), String::from_str("0"));
        let script = match platform {
            Platform::Windows => Self::windows_script(),
            Platform::Unix => Self::unix_script(),
        };
        Ok(AuthPlan::Askpass(PendingAskpass { env, script }))
    }

    /// The hook script for systems with a POSIX shell.
    pub fn unix_script() -> (r: AskpassScript)
        ensures
            r.deep_view() == askpass_script(Platform::Unix),
    {
        AskpassScript {
            prefix: String::from_str("projectlib-askpass-"),
            suffix: String::from_str(""),
            contents: Self::askpass_contents(Platform::Unix),
            owner_only: true,
        }
    }

    /// The hook script for Windows.
    pub fn windows_script() -> (r: AskpassScript)
        ensures
            r.deep_view() == askpass_script(Platform::Windows),
    {
        AskpassScript {
            prefix: String::from_str("projectlib-askpass-"),
            suffix: String::from_str(".cmd"),
            contents: Self::askpass_contents(Platform::Windows),
            owner_only: false,
        }
    }

    /// The text of the hook script: it prints the user name where the prompt
    /// asks for one and the secret otherwise, both taken from the
    /// environment of the process.
    pub fn askpass_contents(platform: Platform) -> (r: String)
        ensures
            r@ == askpass_text(platform),
    {
        match platform {
            Platform::Windows => String::from_str(
                "@echo off\nset prompt=%1\necho %prompt%| findstr /I \"Username\" >nul\nif %errorlevel%==0 (\n  echo %TAURI_GIT_USERNAME%\n) else (\n  echo %TAURI_GIT_PASSWORD%\n)\n",
            ),
            Platform::Unix => String::from_str(
                "#!/bin/sh\ncase \"$1\" in\n  *Username* ) printf '%s\\n' \"$TAURI_GIT_USERNAME\" ;;\n  *username* ) printf '%s\\n' \"$TAURI_GIT_USERNAME\" ;;\n  * ) printf '%s\\n' \"$TAURI_GIT_PASSWORD\" ;;\nesac\n",
            ),
        }
    }
}

} // verus!
