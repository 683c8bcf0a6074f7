use vstd::prelude::*;
use vstd::string::StrSliceExecFns;
use vstd::string::StringExecFns;
use crate::chat::{ChatRole, ChatWrapper, spec_log_append, spec_log_new};
use crate::gate::{is_blank_line, spec_trim_ws};
use crate::modes::{spec_system_prompt, ModelMode};
use crate::session::SessionCore;

verus! {

/// Creating the shell failed: the backend could not be constructed, or a
/// requested session could not be loaded.
#[derive(Debug)]
pub struct ShellCreationError;

/// The shared still-running flag: `false` while generation runs, set to
/// `true` once output is ready, at which point the progress indicator must
/// erase its line and stop.
pub struct ModelStatus(pub bool);

/// Whether the progress indicator should repaint once more: it keeps
/// animating exactly while the flag says the model is still running.
pub fn indicator_should_continue(status: &ModelStatus) -> (again: bool)
    ensures
        again == !status.0,
{
    !status.0
}

/// The current working directory and its formatted file listing, read by
/// the caller when a query is to be augmented.
pub struct DirContext {
    pub wd: String,
    pub files: String,
}

/// What one line of interactive input asks for.
#[derive(Clone, Copy, PartialEq, Eq, Structural, Debug)]
pub enum ReplAction {
    /// Save the session if a path was configured, then leave the loop.
    Exit,
    /// Blank input: prompt again without generating.
    Reprompt,
    /// Append the line as a user message and generate.
    Submit,
}

/// How a finished generation is handed on, by mode: a command goes through
/// the safety gate, code may be cleaned and written to a file, everything
/// else is streamed as text.
#[derive(Clone, Copy, PartialEq, Eq, Structural, Debug)]
pub enum Dispatch {
    CommandGate,
    CodeOutput,
    Stream,
}

/// The dispatch a mode calls for.
pub open spec fn spec_dispatch(m: ModelMode) -> Dispatch {
    match m {
        ModelMode::CMD => Dispatch::CommandGate,
        ModelMode::CODE => Dispatch::CodeOutput,
        _ => Dispatch::Stream,
    }
}

/// The sentences appended to every mode's system prompt, wiring up the
/// session-control markers.
pub open spec fn spec_augmented_sys_prompt(prompt: Seq<char>) -> Seq<char> {
    prompt + " If anything related to saving the current session, respond with <SAVE>."@
        + " If anything is related to exiting or leaving the current session, respond with <EXIT>."@
}

/// A query augmented with the working directory and its file listing.
pub open spec fn spec_augmented_query(query: Seq<char>, wd: Seq<char>, files: Seq<char>) -> Seq<
    char,
> {
    query + " WD: "@ + wd + " FILES: "@ + files
}

/// The content of the initial user message: augmented with directory
/// context in command mode, the query itself otherwise.
pub open spec fn spec_initial_user_content(
    m: ModelMode,
    query: Seq<char>,
    dir: Option<DirContext>,
) -> Seq<char> {
    if m is CMD {
        match dir {
            Some(d) => spec_augmented_query(query, d.wd@, d.files@),
            None => query,
        }
    } else {
        query
    }
}

/// The maximum-generation-length option, clamped to the hard ceiling.
pub fn clamp_max_gen(max: i32) -> (m: i32)
    ensures
        m == if max < 30000 {
            max as int
        } else {
            30000int
        },
{
    if max < 30000 {
        max
    } else {
        30000
    }
}

/// Sorts one line of interactive input: `exit` (newline-terminated) leaves
/// the loop, a blank line re-prompts, anything else becomes a user message.
pub fn classify_input(input: &str) -> (action: ReplAction)
    ensures
        action is Exit <==> input@ == "exit\n"@,
        action is Reprompt <==> (input@ != "exit\n"@ && spec_trim_ws(input@) == Seq::<
            char,
        >::empty()),
        action is Submit <==> (input@ != "exit\n"@ && spec_trim_ws(input@) != Seq::<
            char,
        >::empty()),
{
    proof {
        reveal_strlit("exit\n");
    }
    let n = input.unicode_len();
    let is_exit: bool;
    if n == 5 {
        let c0 = input.get_char(0);
        let c1 = input.get_char(1);
        let c2 = input.get_char(2);
        let c3 = input.get_char(3);
        let c4 = input.get_char(4);
        is_exit = c0 == 'e' && c1 == 'x' && c2 == 'i' && c3 == 't' && c4 == '\n';
        proof {
            if is_exit {
                assert(input@ =~= "exit\n"@);
            } else {
                assert(input@ != "exit\n"@);
            }
        }
    } else {
        is_exit = false;
        proof {
            assert(input@.len() != "exit\n"@.len());
        }
    }
    if is_exit {
        ReplAction::Exit
    } else if is_blank_line(input) {
        ReplAction::Reprompt
    } else {
        ReplAction::Submit
    }
}

/// The session controller: the conversation log of the current turn, the
/// generation session, and the run's configuration.
pub struct Shellm {
    pub session: SessionCore,
    pub max_gen: i32,
    pub model_mode: ModelMode,
    pub shell_mode: bool,
    pub query: ChatWrapper,
    pub save_path: Option<String>,
    pub program_out_file: Option<String>,
}

impl Shellm {
    /// Builds the controller: the mode's system prompt is augmented with
    /// the session-control sentences and becomes the log's first message;
    /// an initial query, augmented with directory context in command mode,
    /// becomes the second.
    pub fn new(
        query: Option<String>,
        model_mode: ModelMode,
        max_gen: i32,
        shell_mode: bool,
        save_path: Option<String>,
        program_out_file: Option<String>,
        session: SessionCore,
        dir: Option<DirContext>,
    ) -> (shell: Shellm)
        requires
            model_mode is CMD && query is Some ==> dir is Some,
        ensures
            shell.session == session,
            shell.max_gen == max_gen,
            shell.model_mode == model_mode,
            shell.shell_mode == shell_mode,
            shell.save_path == save_path,
            shell.program_out_file == program_out_file,
            match query {
                Some(q) => shell.query@ =~= spec_log_append(
                    spec_log_append(
                        spec_log_new(),
                        ChatRole::System,
                        spec_augmented_sys_prompt(spec_system_prompt(model_mode)),
                    ),
                    ChatRole::User,
                    spec_initial_user_content(model_mode, q@, dir),
                ),
                None => shell.query@ =~= spec_log_append(
                    spec_log_new(),
                    ChatRole::System,
                    spec_augmented_sys_prompt(spec_system_prompt(model_mode)),
                ),
            },
    {
        let sys_prompt = Self::augment_sys_prompt(model_mode.get_system_prompt().to_owned());
        let mut init_query = ChatWrapper::new();
        init_query.add_dialogue(ChatRole::System, sys_prompt.as_str());
        match query {
            Some(q) => {
                let content = if model_mode.requires_augmentation() {
                    match dir {
                        Some(d) => Self::augment_query(q, d.wd.as_str(), d.files.as_str()),
                        None => q,
                    }
                } else {
                    q
                };
                init_query.add_dialogue(ChatRole::User, content.as_str());
            },
            None => {},
        }
        Shellm {
            session,
            max_gen,
            model_mode,
            shell_mode,
            query: init_query,
            save_path,
            program_out_file,
        }
    }

    /// Appends the session-control sentences to a system prompt.
    pub fn augment_sys_prompt(prompt: String) -> (r: String)
        ensures
            r@ == spec_augmented_sys_prompt(prompt@),
    {
        let mut p = prompt;
        p.append(" If anything related to saving the current session, respond with <SAVE>.");
        p.append(
            " If anything is related to exiting or leaving the current session, respond with <EXIT>.",
        );
        p
    }

    /// Appends the working directory and its file listing to a query, in
    /// the `WD: ... FILES: ...` framing the command mode's prompt expects.
    pub fn augment_query(query: String, wd: &str, files: &str) -> (r: String)
        ensures
            r@ == spec_augmented_query(query@, wd@, files@),
    {
        let mut q = query;
        q.append(" WD: ");
        q.append(wd);
        q.append(" FILES: ");
        q.append(files);
        q
    }

    /// Strips the first and the last line of generated code: what remains
    /// between the first and the last newline, when the code-fence
    /// convention was emitted around the code.
    pub fn clean_code_output(content: String) -> (r: String)
        ensures
            r@ == spec_cleaned_code(content@),
    {
        let s = content.as_str();
        let n = s.unicode_len();
        let mut fi: usize = 0;
        while fi < n && s.get_char(fi) != '\n'
            invariant
                n == s@.len(),
                fi <= n,
                forall|t: int| 0 <= t < fi ==> s@[t] != '\n',
            decreases n - fi,
        {
            fi = fi + 1;
        }
        if fi == n {
            proof {
                assert(!spec_has_nl(s@));
            }
            return String::new();
        }
        let mut li: usize = n;
        while li > 0 && s.get_char(li - 1) != '\n'
            invariant
                n == s@.len(),
                li <= n,
                forall|t: int| li <= t < n ==> s@[t] != '\n',
            decreases li,
        {
            li = li - 1;
        }
        proof {
            assert(s@[fi as int] == '\n');
            assert(spec_has_nl(s@));
            assert(li > 0 && s@[li - 1] == '\n') by {
                if li == 0 {
                    assert(s@[fi as int] != '\n');
                }
            }
            lemma_first_nl_at(s@, fi as int);
            lemma_last_nl_at(s@, li - 1);
            assert(fi as int <= li - 1) by {
                if li - 1 < fi as int {
                    assert(s@[fi as int] != '\n');
                }
            }
        }
        s.substring_char(fi + 1, li).to_owned()
    }

    /// Starts the next interactive turn: clears the conversation log and
    /// re-establishes the active mode's system message, leaving the log as
    /// a freshly built one. The token history is untouched: backend context
    /// continuity across turns lives there.
    pub fn reset_turn(&mut self)
        ensures
            final(self).query@ =~= spec_log_append(
                spec_log_new(),
                ChatRole::System,
                spec_augmented_sys_prompt(spec_system_prompt(old(self).model_mode)),
            ),
            final(self).session == old(self).session,
            final(self).max_gen == old(self).max_gen,
            final(self).model_mode == old(self).model_mode,
            final(self).shell_mode == old(self).shell_mode,
            final(self).save_path == old(self).save_path,
            final(self).program_out_file == old(self).program_out_file,
    {
        self.query.clear();
        let sys_prompt = Self::augment_sys_prompt(self.model_mode.get_system_prompt().to_owned());
        self.query.add_dialogue(ChatRole::System, sys_prompt.as_str());
    }

    /// Whether a one-shot turn is already pending: the log then holds the
    /// system message and one user message, and the interactive loop must
    /// run it before reading input.
    pub fn has_pending_turn(&self) -> (b: bool)
        ensures
            b == (self.query@.len() == 2),
    {
        self.query.len() == 2
    }

    /// Whether there is a query to run at all: without a user message the
    /// one-shot path reports that no query was provided and generates
    /// nothing.
    pub fn has_query(&self) -> (b: bool)
        ensures
            b == (self.query@.len() >= 2),
    {
        self.query.len() >= 2
    }

    /// How this mode's finished generation is handed on.
    pub fn run_mode_dispatch(&self) -> (d: Dispatch)
        ensures
            d == spec_dispatch(self.model_mode),
    {
        match self.model_mode {
            ModelMode::CMD => Dispatch::CommandGate,
            ModelMode::CODE => Dispatch::CodeOutput,
            _ => Dispatch::Stream,
        }
    }
}

/// Whether some character is a newline.
pub open spec fn spec_has_nl(s: Seq<char>) -> bool {
    exists|i: int| 0 <= i < s.len() && s[i] == '\n'
}

/// The index of the first newline.
pub open spec fn spec_first_nl(s: Seq<char>) -> int
    decreases s.len(),
{
    if s.len() == 0 {
        0
    } else if s.first() == '\n' {
        0
    } else {
        1 + spec_first_nl(s.drop_first())
    }
}

/// The index of the last newline.
pub open spec fn spec_last_nl(s: Seq<char>) -> int
    decreases s.len(),
{
    if s.len() == 0 {
        -1
    } else if s.last() == '\n' {
        s.len() - 1
    } else {
        spec_last_nl(s.drop_last())
    }
}

/// Generated code without its first and last line: empty when the text has
/// no newline at all, otherwise everything after the first newline up to
/// and including the last one.
pub open spec fn spec_cleaned_code(s: Seq<char>) -> Seq<char> {
    if !spec_has_nl(s) {
        Seq::empty()
    } else {
        s.subrange(spec_first_nl(s) + 1, spec_last_nl(s) + 1)
    }
}

proof fn lemma_first_nl_at(s: Seq<char>, k: int)
    requires
        0 <= k < s.len(),
        s[k] == '\n',
        forall|j: int| 0 <= j < k ==> s[j] != '\n',
    ensures
        spec_first_nl(s) == k,
    decreases k,
{
    if k > 0 {
        lemma_first_nl_at(s.drop_first(), k - 1);
    }
}

proof fn lemma_last_nl_at(s: Seq<char>, k: int)
    requires
        0 <= k < s.len(),
        s[k] == '\n',
        forall|j: int| k < j < s.len() ==> s[j] != '\n',
    ensures
        spec_last_nl(s) == k,
    decreases s.len(),
{
    if k < s.len() - 1 {
        lemma_last_nl_at(s.drop_last(), k);
    }
}

} // verus!
