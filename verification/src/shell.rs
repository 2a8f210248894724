//! A console reporter for a command-line tool: it resolves the requested
//! verbosity and color mode, gates each message category on the verbosity,
//! routes diagnostics to the secondary stream and program output to the
//! primary stream, and keeps an in-place progress line on either stream from
//! corrupting the next message by erasing it first.

use vstd::prelude::*;
use vstd::string::StringExecFns;
use vstd::string::StrSliceExecFns;
use crate::ansi::StatusColor;
use crate::ansi::bolded;
use crate::ansi::colored;
use crate::ansi::bold_colored;
use crate::ansi::erase_line_seq;
use crate::ansi::push_bolded;
use crate::ansi::push_colored;
use crate::ansi::push_bold_colored;

verus! {

/// The requested verbosity of output, ordered by information volume:
/// `Quiet` shows the least, `Verbose` the most.
#[derive(Debug, Clone, Copy, PartialEq, Eq, Structural)]
pub enum Verbosity {
    Quiet,
    Normal,
    Verbose,
}

impl Verbosity {
    /// Whether this level asks for the most detailed output.
    pub fn verbose(self) -> (r: bool)
        ensures
            r == (self == Verbosity::Verbose),
    {
        match self {
            Self::Verbose => true,
            Self::Normal | Self::Quiet => false,
        }
    }
}

/// Whether messages should use color output.
#[derive(Debug, Clone, Copy, PartialEq, Eq, Structural)]
pub enum ColorChoice {
    /// force color output
    Always,
    /// force disable color output
    Never,
    /// intelligently guess whether to use color output
    Auto,
}

/// An underlying stream write or flush failed.
#[derive(Debug, Clone, Copy, PartialEq, Eq, Structural)]
pub struct WriteError;

/// A configuration the reporter cannot be built from.
#[derive(Debug, PartialEq, Eq)]
pub enum ShellError {
    /// The color-mode argument is none of `always`, `never`, `auto`;
    /// it is carried here verbatim.
    InvalidColorArg(String),
    /// Both the verbose and the quiet flag were set. The color choice had
    /// already been resolved and is carried so the caller can still build a
    /// reporter for the diagnostic before it terminates the process.
    VerbosityConflict(ColorChoice),
}

/// The exit status for the verbose-and-quiet flag conflict.
pub const CONFLICT_EXIT_CODE: i32 = 101;

/// The diagnostic printed for the verbose-and-quiet flag conflict.
pub const CONFLICT_MESSAGE: &'static str = "cannot set both --verbose and --quiet";

/// The reporter: the resolved color and verbosity settings, and one
/// pending-erase flag for each of the two streams.
#[derive(Debug, Clone, Copy, PartialEq, Eq, Structural)]
pub struct MessageInfo {
    pub color_choice: ColorChoice,
    pub verbosity: Verbosity,
    pub stdout_needs_erase: bool,
    pub stderr_needs_erase: bool,
}

/// Compares two strings character for character.
fn str_eq(a: &str, b: &str) -> (r: bool)
    ensures
        r == (a@ == b@),
{
    let la = a.unicode_len();
    let lb = b.unicode_len();
    if la != lb {
        return false;
    }
    let mut i: usize = 0;
    while i < la
        invariant
            la == a@.len(),
            lb == b@.len(),
            la == lb,
            i <= la,
            forall|j: int| 0 <= j < i ==> a@[j] == b@[j],
        decreases la - i,
    {
        if a.get_char(i) != b.get_char(i) {
            return false;
        }
        i += 1;
    }
    proof {
        assert(a@ =~= b@);
    }
    true
}

/// The view of an optional string.
pub open spec fn view_opt(text: Option<&str>) -> Option<Seq<char>> {
    match text {
        Some(s) => Some(s@),
        None => None,
    }
}

/// The color mode each argument resolves to: absence means `Auto`, the three
/// literal names mean themselves, and anything else is invalid.
pub open spec fn color_choice_of(color: Option<Seq<char>>) -> Option<ColorChoice> {
    match color {
        None => Some(ColorChoice::Auto),
        Some(s) => if s == "always"@ {
            Some(ColorChoice::Always)
        } else if s == "never"@ {
            Some(ColorChoice::Never)
        } else if s == "auto"@ {
            Some(ColorChoice::Auto)
        } else {
            None
        },
    }
}

/// Resolves the optional color-mode argument, rejecting any string other than
/// the three literal mode names.
pub fn get_color_choice(color: Option<&str>) -> (r: Result<ColorChoice, ShellError>)
    ensures
        color_choice_of(view_opt(color)) matches Some(c) ==> r == Ok::<ColorChoice, ShellError>(c),
        color matches Some(s) ==> (color_choice_of(view_opt(color)) is None ==> (r matches Err(
            ShellError::InvalidColorArg(t),
        ) && t@ == s@)),
{
    match color {
        None => Ok(ColorChoice::Auto),
        Some(s) => {
            if str_eq(s, "always") {
                Ok(ColorChoice::Always)
            } else if str_eq(s, "never") {
                Ok(ColorChoice::Never)
            } else if str_eq(s, "auto") {
                Ok(ColorChoice::Auto)
            } else {
                Err(ShellError::InvalidColorArg(String::from_str(s)))
            }
        },
    }
}

/// The verbosity level each non-contradictory flag pair resolves to.
pub open spec fn verbosity_of(verbose: bool, quiet: bool) -> Verbosity {
    if verbose {
        Verbosity::Verbose
    } else if quiet {
        Verbosity::Quiet
    } else {
        Verbosity::Normal
    }
}

/// Resolves the verbose and quiet flags into a verbosity level. Setting both
/// flags is a policy conflict: the caller is expected to print the conflict
/// diagnostic through a reporter built from `color_choice` and terminate the
/// process with `CONFLICT_EXIT_CODE`.
pub fn get_verbosity(color_choice: ColorChoice, verbose: bool, quiet: bool) -> (r: Result<
    Verbosity,
    ShellError,
>)
    ensures
        verbose && quiet ==> r == Err::<Verbosity, ShellError>(
            ShellError::VerbosityConflict(color_choice),
        ),
        !(verbose && quiet) ==> r == Ok::<Verbosity, ShellError>(verbosity_of(verbose, quiet)),
{
    match (verbose, quiet) {
        (true, true) => Err(ShellError::VerbosityConflict(color_choice)),
        (true, false) => Ok(Verbosity::Verbose),
        (false, true) => Ok(Verbosity::Quiet),
        (false, false) => Ok(Verbosity::Normal),
    }
}

impl MessageInfo {
    /// A reporter with the given settings and no pending erase on either stream.
    pub fn new(color_choice: ColorChoice, verbosity: Verbosity) -> (r: MessageInfo)
        ensures
            r == (MessageInfo {
                color_choice,
                verbosity,
                stdout_needs_erase: false,
                stderr_needs_erase: false,
            }),
    {
        MessageInfo { color_choice, verbosity, stdout_needs_erase: false, stderr_needs_erase: false }
    }

    /// Resolves the raw configuration flags into a reporter: an invalid color
    /// argument and the verbose-and-quiet conflict are the only rejections.
    pub fn create(verbose: bool, quiet: bool, color: Option<&str>) -> (r: Result<
        MessageInfo,
        ShellError,
    >)
        ensures
            color matches Some(s) ==> (color_choice_of(view_opt(color)) is None ==> (r matches Err(
                ShellError::InvalidColorArg(t),
            ) && t@ == s@)),
            color_choice_of(view_opt(color)) matches Some(c) ==> (verbose && quiet ==> r
                == Err::<MessageInfo, ShellError>(ShellError::VerbosityConflict(c))),
            color_choice_of(view_opt(color)) matches Some(c) ==> (!(verbose && quiet) ==> r
                == Ok::<MessageInfo, ShellError>(
                (MessageInfo {
                    color_choice: c,
                    verbosity: verbosity_of(verbose, quiet),
                    stdout_needs_erase: false,
                    stderr_needs_erase: false,
                }),
            )),
    {
        let color_choice = match get_color_choice(color) {
            Ok(c) => c,
            Err(e) => {
                return Err(e);
            },
        };
        let verbosity = match get_verbosity(color_choice, verbose, quiet) {
            Ok(v) => v,
            Err(e) => {
                return Err(e);
            },
        };
        Ok(
            MessageInfo {
                color_choice,
                verbosity,
                stdout_needs_erase: false,
                stderr_needs_erase: false,
            },
        )
    }

    /// Whether the reporter is at the most detailed level.
    pub fn is_verbose(&self) -> (r: bool)
        ensures
            r == (self.verbosity == Verbosity::Verbose),
    {
        self.verbosity.verbose()
    }
}

/// The tool-tagged label of an error diagnostic.
pub open spec fn error_label() -> Seq<char> {
    "[cross] error"@
}

/// The tool-tagged label of a warning diagnostic.
pub open spec fn warning_label() -> Seq<char> {
    "[cross] warning"@
}

/// The tool-tagged label of a note diagnostic.
pub open spec fn note_label() -> Seq<char> {
    "[cross] note"@
}

/// What follows a status label's colon: the message and a newline, or, with no
/// message, a lone trailing space so the caller can continue the line.
pub open spec fn status_body(body: Option<Seq<char>>) -> Seq<char> {
    match body {
        Some(b) => " "@ + b + "\n"@,
        None => " "@,
    }
}

/// A status line: the bold, colored label, a bold colon, and the body.
pub open spec fn status_line(
    label: Seq<char>,
    body: Option<Seq<char>>,
    c: StatusColor,
    active: bool,
) -> Seq<char> {
    bold_colored(label, c, active) + bolded(":"@, active) + status_body(body)
}

/// A plain message line.
pub open spec fn plain_line(m: Seq<char>) -> Seq<char> {
    m + "\n"@
}

/// What a write leads with: the erase sequence when the stream still shows an
/// in-place progress line, nothing otherwise.
pub open spec fn erase_prefix(needs_erase: bool) -> Seq<char> {
    if needs_erase {
        erase_line_seq()
    } else {
        Seq::<char>::empty()
    }
}

/// The reporter after a completed write to the primary stream.
pub open spec fn after_primary_write(st: MessageInfo) -> MessageInfo {
    MessageInfo { stdout_needs_erase: false, ..st }
}

/// The reporter after a completed write to the secondary stream.
pub open spec fn after_secondary_write(st: MessageInfo) -> MessageInfo {
    MessageInfo { stderr_needs_erase: false, ..st }
}

/// Everything an `error` call sends to the secondary stream.
pub open spec fn error_output(st: MessageInfo, m: Seq<char>, active: bool) -> Seq<char> {
    erase_prefix(st.stderr_needs_erase) + status_line(error_label(), Some(m), StatusColor::Red, active)
}

/// Everything an emitted `warn` call sends to the secondary stream.
pub open spec fn warn_output(st: MessageInfo, m: Seq<char>, active: bool) -> Seq<char> {
    erase_prefix(st.stderr_needs_erase) + status_line(
        warning_label(),
        Some(m),
        StatusColor::Yellow,
        active,
    )
}

/// Everything an emitted `note` call sends to the secondary stream.
pub open spec fn note_output(st: MessageInfo, m: Seq<char>, active: bool) -> Seq<char> {
    erase_prefix(st.stderr_needs_erase) + status_line(note_label(), Some(m), StatusColor::Cyan, active)
}

/// Everything an emitted `status` call sends to the secondary stream.
pub open spec fn status_output(st: MessageInfo, m: Seq<char>) -> Seq<char> {
    erase_prefix(st.stderr_needs_erase) + plain_line(m)
}

/// Everything a `print`, emitted `info`, or emitted `debug` call sends to the
/// primary stream.
pub open spec fn print_output(st: MessageInfo, m: Seq<char>) -> Seq<char> {
    erase_prefix(st.stdout_needs_erase) + plain_line(m)
}

/// The usage-error block: the bold red error label, the offending argument
/// highlighted in yellow, a fixed usage synopsis, and a green pointer to the
/// help flag.
pub open spec fn usage_block(arg: Seq<char>, active: bool) -> Seq<char> {
    bold_colored(error_label(), StatusColor::Red, active) + bolded(":"@, active)
        + " The argument '"@ + colored(arg, StatusColor::Yellow, active)
        + "' requires a value but none was supplied\n"@ + "Usage:\n"@
        + "    cross [+toolchain] [OPTIONS] [SUBCOMMAND]\n"@ + "\n"@
        + "For more information try "@ + colored("--help"@, StatusColor::Green, active) + "\n"@
}

/// Everything an `error_usage` call sends to the secondary stream.
pub open spec fn usage_output(st: MessageInfo, arg: Seq<char>, active: bool) -> Seq<char> {
    erase_prefix(st.stderr_needs_erase) + usage_block(arg, active)
}

/// Which verbosity levels emit the suppressible message categories
/// (`warn`, `note`, `status`, `info`): everything above `Quiet`.
pub open spec fn emits_status(v: Verbosity) -> bool {
    v != Verbosity::Quiet
}

/// Which verbosity levels emit debugging messages: only `Verbose`.
pub open spec fn emits_debug(v: Verbosity) -> bool {
    v == Verbosity::Verbose
}

/// Renders one status line.
pub fn render_status(label: &str, body: Option<&str>, c: StatusColor, active: bool) -> (r: String)
    ensures
        r@ == status_line(label@, view_opt(body), c, active),
{
    let mut out = String::new();
    push_bold_colored(&mut out, label, c, active);
    push_bolded(&mut out, ":", active);
    match body {
        Some(b) => {
            out.append(" ");
            out.append(b);
            out.append("\n");
        },
        None => {
            out.append(" ");
        },
    }
    proof {
        assert(out@ =~= status_line(label@, view_opt(body), c, active));
    }
    out
}

fn erase_prefix_string(needs_erase: bool) -> (r: String)
    ensures
        r@ == erase_prefix(needs_erase),
{
    if needs_erase {
        String::from_str("\u{1b}[K")
    } else {
        String::new()
    }
}

impl MessageInfo {
    /// The exact text an `error` call on this reporter sends to the secondary
    /// stream when styling is `active`.
    pub fn compose_error(&self, message: &str, active: bool) -> (r: String)
        ensures
            r@ == error_output(*self, message@, active),
    {
        let mut out = erase_prefix_string(self.stderr_needs_erase);
        let line = render_status("[cross] error", Some(message), StatusColor::Red, active);
        out.append(line.as_str());
        proof {
            assert(out@ =~= error_output(*self, message@, active));
        }
        out
    }

    /// The exact text an emitted `warn` call on this reporter sends to the
    /// secondary stream when styling is `active`.
    pub fn compose_warn(&self, message: &str, active: bool) -> (r: String)
        ensures
            r@ == warn_output(*self, message@, active),
    {
        let mut out = erase_prefix_string(self.stderr_needs_erase);
        let line = render_status("[cross] warning", Some(message), StatusColor::Yellow, active);
        out.append(line.as_str());
        proof {
            assert(out@ =~= warn_output(*self, message@, active));
        }
        out
    }

    /// The exact text an emitted `note` call on this reporter sends to the
    /// secondary stream when styling is `active`.
    pub fn compose_note(&self, message: &str, active: bool) -> (r: String)
        ensures
            r@ == note_output(*self, message@, active),
    {
        let mut out = erase_prefix_string(self.stderr_needs_erase);
        let line = render_status("[cross] note", Some(message), StatusColor::Cyan, active);
        out.append(line.as_str());
        proof {
            assert(out@ =~= note_output(*self, message@, active));
        }
        out
    }

    /// The exact text an emitted `status` call on this reporter sends to the
    /// secondary stream: a plain line, never styled.
    pub fn compose_status(&self, message: &str) -> (r: String)
        ensures
            r@ == status_output(*self, message@),
    {
        let mut out = erase_prefix_string(self.stderr_needs_erase);
        out.append(message);
        out.append("\n");
        proof {
            assert(out@ =~= status_output(*self, message@));
        }
        out
    }

    /// The exact text a `print`, emitted `info`, or emitted `debug` call on
    /// this reporter sends to the primary stream: a plain line, never styled.
    pub fn compose_print(&self, message: &str) -> (r: String)
        ensures
            r@ == print_output(*self, message@),
    {
        let mut out = erase_prefix_string(self.stdout_needs_erase);
        out.append(message);
        out.append("\n");
        proof {
            assert(out@ =~= print_output(*self, message@));
        }
        out
    }

    /// The exact text an `error_usage` call on this reporter sends to the
    /// secondary stream when styling is `active`.
    pub fn compose_usage(&self, arg: &str, active: bool) -> (r: String)
        ensures
            r@ == usage_output(*self, arg@, active),
    {
        let mut out = erase_prefix_string(self.stderr_needs_erase);
        push_bold_colored(&mut out, "[cross] error", StatusColor::Red, active);
        push_bolded(&mut out, ":", active);
        out.append(" The argument '");
        push_colored(&mut out, arg, StatusColor::Yellow, active);
        out.append("' requires a value but none was supplied\n");
        out.append("Usage:\n");
        out.append("    cross [+toolchain] [OPTIONS] [SUBCOMMAND]\n");
        out.append("\n");
        out.append("For more information try ");
        push_colored(&mut out, "--help", StatusColor::Green, active);
        out.append("\n");
        proof {
            assert(out@ =~= usage_output(*self, arg@, active));
        }
        out
    }

    /// Whether the next secondary-stream write applies styling: `Always` and
    /// `Never` decide unconditionally, `Auto` asks the stream at this moment.
    fn secondary_color_active(&self) -> (r: bool)
        ensures
            self.color_choice == ColorChoice::Always ==> r,
            self.color_choice == ColorChoice::Never ==> !r,
    {
        match self.color_choice {
            ColorChoice::Always => true,
            ColorChoice::Never => false,
            ColorChoice::Auto => crate::sink::secondary_supports_color(),
        }
    }

    /// Prints a red `error` status message to the secondary stream. Never
    /// suppressed, not even at `Quiet`.
    pub fn error(&mut self, message: &str) -> (r: Result<(), WriteError>)
        ensures
            r is Ok ==> *final(self) == after_secondary_write(*old(self)),
            r is Err ==> *final(self) == *old(self),
    {
        let active = self.secondary_color_active();
        let out = self.compose_error(message, active);
        match crate::sink::write_secondary(out.as_str()) {
            Ok(()) => {
                self.stderr_needs_erase = false;
                Ok(())
            },
            Err(e) => Err(e),
        }
    }

    /// Prints an amber `warning` status message to the secondary stream,
    /// suppressed at `Quiet`.
    pub fn warn(&mut self, message: &str) -> (r: Result<(), WriteError>)
        ensures
            !emits_status(old(self).verbosity) ==> r is Ok && *final(self) == *old(self),
            r is Ok && emits_status(old(self).verbosity) ==> *final(self) == after_secondary_write(
                *old(self),
            ),
            r is Err ==> *final(self) == *old(self),
    {
        match self.verbosity {
            Verbosity::Quiet => Ok(()),
            _ => {
                let active = self.secondary_color_active();
                let out = self.compose_warn(message, active);
                match crate::sink::write_secondary(out.as_str()) {
                    Ok(()) => {
                        self.stderr_needs_erase = false;
                        Ok(())
                    },
                    Err(e) => Err(e),
                }
            },
        }
    }

    /// Prints a cyan `note` status message to the secondary stream, suppressed
    /// at `Quiet`.
    pub fn note(&mut self, message: &str) -> (r: Result<(), WriteError>)
        ensures
            !emits_status(old(self).verbosity) ==> r is Ok && *final(self) == *old(self),
            r is Ok && emits_status(old(self).verbosity) ==> *final(self) == after_secondary_write(
                *old(self),
            ),
            r is Err ==> *final(self) == *old(self),
    {
        match self.verbosity {
            Verbosity::Quiet => Ok(()),
            _ => {
                let active = self.secondary_color_active();
                let out = self.compose_note(message, active);
                match crate::sink::write_secondary(out.as_str()) {
                    Ok(()) => {
                        self.stderr_needs_erase = false;
                        Ok(())
                    },
                    Err(e) => Err(e),
                }
            },
        }
    }

    /// Prints a plain, unstyled line to the secondary stream, suppressed at
    /// `Quiet`.
    pub fn status(&mut self, message: &str) -> (r: Result<(), WriteError>)
        ensures
            !emits_status(old(self).verbosity) ==> r is Ok && *final(self) == *old(self),
            r is Ok && emits_status(old(self).verbosity) ==> *final(self) == after_secondary_write(
                *old(self),
            ),
            r is Err ==> *final(self) == *old(self),
    {
        match self.verbosity {
            Verbosity::Quiet => Ok(()),
            _ => {
                let out = self.compose_status(message);
                match crate::sink::write_secondary(out.as_str()) {
                    Ok(()) => {
                        self.stderr_needs_erase = false;
                        Ok(())
                    },
                    Err(e) => Err(e),
                }
            },
        }
    }

    /// Prints a high-priority line to the primary stream. Never suppressed,
    /// not even at `Quiet`: this is required program output.
    pub fn print(&mut self, message: &str) -> (r: Result<(), WriteError>)
        ensures
            r is Ok ==> *final(self) == after_primary_write(*old(self)),
            r is Err ==> *final(self) == *old(self),
    {
        let out = self.compose_print(message);
        match crate::sink::write_primary(out.as_str()) {
            Ok(()) => {
                self.stdout_needs_erase = false;
                Ok(())
            },
            Err(e) => Err(e),
        }
    }

    /// Prints a normal line to the primary stream, suppressed at `Quiet`.
    pub fn info(&mut self, message: &str) -> (r: Result<(), WriteError>)
        ensures
            !emits_status(old(self).verbosity) ==> r is Ok && *final(self) == *old(self),
            r is Ok && emits_status(old(self).verbosity) ==> *final(self) == after_primary_write(
                *old(self),
            ),
            r is Err ==> *final(self) == *old(self),
    {
        match self.verbosity {
            Verbosity::Quiet => Ok(()),
            _ => {
                let out = self.compose_print(message);
                match crate::sink::write_primary(out.as_str()) {
                    Ok(()) => {
                        self.stdout_needs_erase = false;
                        Ok(())
                    },
                    Err(e) => Err(e),
                }
            },
        }
    }

    /// Prints a debugging line to the primary stream, suppressed at both
    /// `Quiet` and `Normal`.
    pub fn debug(&mut self, message: &str) -> (r: Result<(), WriteError>)
        ensures
            !emits_debug(old(self).verbosity) ==> r is Ok && *final(self) == *old(self),
            r is Ok && emits_debug(old(self).verbosity) ==> *final(self) == after_primary_write(
                *old(self),
            ),
            r is Err ==> *final(self) == *old(self),
    {
        match self.verbosity {
            Verbosity::Quiet | Verbosity::Normal => Ok(()),
            _ => {
                let out = self.compose_print(message);
                match crate::sink::write_primary(out.as_str()) {
                    Ok(()) => {
                        self.stdout_needs_erase = false;
                        Ok(())
                    },
                    Err(e) => Err(e),
                }
            },
        }
    }

    /// Writes the usage-error block for a required option that was given no
    /// value to the secondary stream and flushes it. Exempt from verbosity
    /// suppression; the caller is expected to terminate the process afterward.
    pub fn error_usage(&mut self, arg: &str) -> (r: Result<(), WriteError>)
        ensures
            r is Ok ==> *final(self) == after_secondary_write(*old(self)),
            *final(self) == *old(self) || *final(self) == after_secondary_write(*old(self)),
    {
        let active = self.secondary_color_active();
        let out = self.compose_usage(arg, active);
        match crate::sink::write_secondary(out.as_str()) {
            Ok(()) => {
                self.stderr_needs_erase = false;
                crate::sink::flush_secondary()
            },
            Err(e) => Err(e),
        }
    }

    /// Runs `call` on this reporter with its verbosity replaced by `new`,
    /// then restores the original verbosity unconditionally; every other
    /// change `call` made to the reporter is kept.
    fn as_verbosity<T, C: Fn(MessageInfo) -> (MessageInfo, T)>(
        &mut self,
        call: C,
        new: Verbosity,
    ) -> (r: T)
        requires
            call_requires(call, ((MessageInfo { verbosity: new, ..*old(self) }),)),
        ensures
            final(self).verbosity == old(self).verbosity,
            exists|mid: MessageInfo|
                call_ensures(call, ((MessageInfo { verbosity: new, ..*old(self) }),), (mid, r))
                    && *final(self) == (MessageInfo { verbosity: old(self).verbosity, ..mid }),
    {
        let old_verbosity = self.verbosity;
        let mut current = *self;
        current.verbosity = new;
        let (next, result) = call(current);
        let mut restored = next;
        restored.verbosity = old_verbosity;
        *self = restored;
        result
    }

    /// Runs `call` with the verbosity forced to `Quiet`, restoring the
    /// original level afterward.
    pub fn as_quiet<T, C: Fn(MessageInfo) -> (MessageInfo, T)>(&mut self, call: C) -> (r: T)
        requires
            call_requires(call, ((MessageInfo { verbosity: Verbosity::Quiet, ..*old(self) }),)),
        ensures
            final(self).verbosity == old(self).verbosity,
            exists|mid: MessageInfo|
                call_ensures(
                    call,
                    ((MessageInfo { verbosity: Verbosity::Quiet, ..*old(self) }),),
                    (mid, r),
                ) && *final(self) == (MessageInfo { verbosity: old(self).verbosity, ..mid }),
    {
        self.as_verbosity(call, Verbosity::Quiet)
    }

    /// Runs `call` with the verbosity forced to `Normal`, restoring the
    /// original level afterward.
    pub fn as_normal<T, C: Fn(MessageInfo) -> (MessageInfo, T)>(&mut self, call: C) -> (r: T)
        requires
            call_requires(call, ((MessageInfo { verbosity: Verbosity::Normal, ..*old(self) }),)),
        ensures
            final(self).verbosity == old(self).verbosity,
            exists|mid: MessageInfo|
                call_ensures(
                    call,
                    ((MessageInfo { verbosity: Verbosity::Normal, ..*old(self) }),),
                    (mid, r),
                ) && *final(self) == (MessageInfo { verbosity: old(self).verbosity, ..mid }),
    {
        self.as_verbosity(call, Verbosity::Normal)
    }

    /// Runs `call` with the verbosity forced to `Verbose`, restoring the
    /// original level afterward.
    pub fn as_verbose<T, C: Fn(MessageInfo) -> (MessageInfo, T)>(&mut self, call: C) -> (r: T)
        requires
            call_requires(call, ((MessageInfo { verbosity: Verbosity::Verbose, ..*old(self) }),)),
        ensures
            final(self).verbosity == old(self).verbosity,
            exists|mid: MessageInfo|
                call_ensures(
                    call,
                    ((MessageInfo { verbosity: Verbosity::Verbose, ..*old(self) }),),
                    (mid, r),
                ) && *final(self) == (MessageInfo { verbosity: old(self).verbosity, ..mid }),
    {
        self.as_verbosity(call, Verbosity::Verbose)
    }
}

impl ShellError {
    /// The diagnostic text this configuration error is reported with.
    pub fn message(&self) -> (r: String)
        ensures
            self matches ShellError::InvalidColorArg(s) ==> r@
                == "argument for --color must be auto, always, or never, but found `"@ + s@ + "`"@,
            self matches ShellError::VerbosityConflict(_) ==> r@ == CONFLICT_MESSAGE@,
    {
        match self {
            ShellError::InvalidColorArg(s) => {
                let mut out = String::from_str(
                    "argument for --color must be auto, always, or never, but found `",
                );
                out.append(s.as_str());
                out.append("`");
                out
            },
            ShellError::VerbosityConflict(_) => String::from_str(CONFLICT_MESSAGE),
        }
    }
}

impl Default for MessageInfo {
    /// A reporter that guesses color support and reports at `Normal`.
    fn default() -> (r: MessageInfo)
        ensures
            r == (MessageInfo {
                color_choice: ColorChoice::Auto,
                verbosity: Verbosity::Normal,
                stdout_needs_erase: false,
                stderr_needs_erase: false,
            }),
    {
        MessageInfo::new(ColorChoice::Auto, Verbosity::Normal)
    }
}

impl From<ColorChoice> for MessageInfo {
    fn from(color_choice: ColorChoice) -> MessageInfo {
        MessageInfo::new(color_choice, Verbosity::Normal)
    }
}

impl vstd::std_specs::convert::FromSpecImpl<ColorChoice> for MessageInfo {
    open spec fn obeys_from_spec() -> bool {
        true
    }

    open spec fn from_spec(color_choice: ColorChoice) -> MessageInfo {
        MessageInfo {
            color_choice,
            verbosity: Verbosity::Normal,
            stdout_needs_erase: false,
            stderr_needs_erase: false,
        }
    }
}

impl From<Verbosity> for MessageInfo {
    fn from(verbosity: Verbosity) -> MessageInfo {
        MessageInfo::new(ColorChoice::Auto, verbosity)
    }
}

impl vstd::std_specs::convert::FromSpecImpl<Verbosity> for MessageInfo {
    open spec fn obeys_from_spec() -> bool {
        true
    }

    open spec fn from_spec(verbosity: Verbosity) -> MessageInfo {
        MessageInfo {
            color_choice: ColorChoice::Auto,
            verbosity,
            stdout_needs_erase: false,
            stderr_needs_erase: false,
        }
    }
}

impl From<(ColorChoice, Verbosity)> for MessageInfo {
    fn from(info: (ColorChoice, Verbosity)) -> MessageInfo {
        MessageInfo::new(info.0, info.1)
    }
}

impl vstd::std_specs::convert::FromSpecImpl<(ColorChoice, Verbosity)> for MessageInfo {
    open spec fn obeys_from_spec() -> bool {
        true
    }

    open spec fn from_spec(info: (ColorChoice, Verbosity)) -> MessageInfo {
        MessageInfo {
            color_choice: info.0,
            verbosity: info.1,
            stdout_needs_erase: false,
            stderr_needs_erase: false,
        }
    }
}

/// Law: while a stream shows a progress line, the next write to it leads with
/// the erase sequence exactly once and clears the flag, so the write after
/// that carries no erase sequence. Stated here for the primary stream.
pub proof fn lemma_erase_then_clean_primary(st: MessageInfo, m1: Seq<char>, m2: Seq<char>)
    requires
        st.stdout_needs_erase,
    ensures
        print_output(st, m1) == erase_line_seq() + plain_line(m1),
        !after_primary_write(st).stdout_needs_erase,
        print_output(after_primary_write(st), m2) == plain_line(m2),
{
    assert(print_output(st, m1) =~= erase_line_seq() + plain_line(m1));
    assert(print_output(after_primary_write(st), m2) =~= plain_line(m2));
}

/// Law: the erase bookkeeping of the secondary stream, independent of the
/// primary stream's: the next diagnostic leads with the erase sequence exactly
/// once, and the one after that carries none.
pub proof fn lemma_erase_then_clean_secondary(
    st: MessageInfo,
    m1: Seq<char>,
    m2: Seq<char>,
    active1: bool,
    active2: bool,
)
    requires
        st.stderr_needs_erase,
    ensures
        error_output(st, m1, active1) == erase_line_seq() + status_line(
            error_label(),
            Some(m1),
            StatusColor::Red,
            active1,
        ),
        !after_secondary_write(st).stderr_needs_erase,
        after_secondary_write(st).stdout_needs_erase == st.stdout_needs_erase,
        error_output(after_secondary_write(st), m2, active2) == status_line(
            error_label(),
            Some(m2),
            StatusColor::Red,
            active2,
        ),
{
    assert(error_output(st, m1, active1) =~= erase_line_seq() + status_line(
        error_label(),
        Some(m1),
        StatusColor::Red,
        active1,
    ));
    assert(error_output(after_secondary_write(st), m2, active2) =~= status_line(
        error_label(),
        Some(m2),
        StatusColor::Red,
        active2,
    ));
}

/// Law: a reporter built `From` a color choice carries exactly that choice,
/// defaults the verbosity to `Normal`, and starts with no pending erase.
pub proof fn lemma_reporter_from_color(c: ColorChoice)
    ensures
        <MessageInfo as vstd::std_specs::convert::FromSpec<ColorChoice>>::obeys_from_spec(),
        <MessageInfo as vstd::std_specs::convert::FromSpec<ColorChoice>>::from_spec(c)
            == (MessageInfo {
            color_choice: c,
            verbosity: Verbosity::Normal,
            stdout_needs_erase: false,
            stderr_needs_erase: false,
        }),
{
}

/// Law: a reporter built `From` a verbosity level carries exactly that level,
/// defaults the color choice to `Auto`, and starts with no pending erase.
pub proof fn lemma_reporter_from_verbosity(v: Verbosity)
    ensures
        <MessageInfo as vstd::std_specs::convert::FromSpec<Verbosity>>::obeys_from_spec(),
        <MessageInfo as vstd::std_specs::convert::FromSpec<Verbosity>>::from_spec(v)
            == (MessageInfo {
            color_choice: ColorChoice::Auto,
            verbosity: v,
            stdout_needs_erase: false,
            stderr_needs_erase: false,
        }),
{
}

/// Law: a reporter built `From` a color choice and a verbosity level together
/// carries exactly both, and starts with no pending erase.
pub proof fn lemma_reporter_from_pair(c: ColorChoice, v: Verbosity)
    ensures
        <MessageInfo as vstd::std_specs::convert::FromSpec<
            (ColorChoice, Verbosity),
        >>::obeys_from_spec(),
        <MessageInfo as vstd::std_specs::convert::FromSpec<(ColorChoice, Verbosity)>>::from_spec(
            (c, v),
        ) == (MessageInfo {
            color_choice: c,
            verbosity: v,
            stdout_needs_erase: false,
            stderr_needs_erase: false,
        }),
{
}

/// No character of `s` is the terminal escape character.
pub open spec fn escape_free(s: Seq<char>) -> bool {
    forall|i: int| 0 <= i < s.len() ==> s[i] != '\u{1b}'
}

proof fn lemma_escape_free_concat(a: Seq<char>, b: Seq<char>)
    requires
        escape_free(a),
        escape_free(b),
    ensures
        escape_free(a + b),
{
    assert forall|i: int| 0 <= i < (a + b).len() implies (a + b)[i] != '\u{1b}' by {
        if i < a.len() {
            assert((a + b)[i] == a[i]);
        } else {
            assert((a + b)[i] == b[i - a.len()]);
        }
    }
}

/// Law: with styling inactive, a status line is the label, the colon, the
/// body and the newline alone: no escape character appears anywhere in it.
pub proof fn lemma_plain_status_has_no_escape(label: Seq<char>, body: Seq<char>, c: StatusColor)
    requires
        escape_free(label),
        escape_free(body),
    ensures
        status_line(label, Some(body), c, false) == label + ":"@ + " "@ + body + "\n"@,
        escape_free(status_line(label, Some(body), c, false)),
{
    reveal_strlit(":");
    reveal_strlit(" ");
    reveal_strlit("\n");
    assert(status_line(label, Some(body), c, false) =~= label + ":"@ + " "@ + body + "\n"@);
    lemma_escape_free_concat(label, ":"@);
    lemma_escape_free_concat(label + ":"@, " "@);
    lemma_escape_free_concat(label + ":"@ + " "@, body);
    lemma_escape_free_concat(label + ":"@ + " "@ + body, "\n"@);
}

/// A run of `n` spaces.
pub open spec fn pad_seq(n: nat) -> Seq<char> {
    Seq::new(n, |i: int| ' ')
}

/// One trailing carriage return dropped, as splitting at a `\r\n` line ending
/// leaves it.
pub open spec fn chomp_cr(line: Seq<char>) -> Seq<char> {
    if line.len() > 0 && line[line.len() - 1] == '\r' {
        line.drop_last()
    } else {
        line
    }
}

/// The position of the first newline in `s`, or `s.len()` when it has none.
pub open spec fn nl_pos(s: Seq<char>) -> nat
    decreases s.len(),
{
    if s.len() == 0 {
        0
    } else if s[0] == '\n' {
        0
    } else {
        1 + nl_pos(s.drop_first())
    }
}

/// `s` split into lines the way the standard library iterates them (at each
/// newline, a carriage return directly before it dropped), every line given
/// `pad` in front, and the line endings themselves dropped.
pub open spec fn indented(s: Seq<char>, pad: Seq<char>) -> Seq<char>
    decreases s.len(),
{
    if s.len() == 0 {
        Seq::<char>::empty()
    } else {
        let k = nl_pos(s);
        if k >= s.len() {
            pad + s
        } else {
            pad + chomp_cr(s.take(k as int)) + indented(s.skip(k as int + 1), pad)
        }
    }
}

proof fn lemma_nl_pos_at(s: Seq<char>, k: int)
    requires
        0 <= k < s.len(),
        s[k] == '\n',
        forall|j: int| 0 <= j < k ==> s[j] != '\n',
    ensures
        nl_pos(s) == k,
    decreases k,
{
    if k > 0 {
        assert(forall|j: int| 0 <= j < k - 1 ==> s.drop_first()[j] == s[j + 1]);
        lemma_nl_pos_at(s.drop_first(), k - 1);
    }
}

proof fn lemma_nl_pos_none(s: Seq<char>)
    requires
        forall|j: int| 0 <= j < s.len() ==> s[j] != '\n',
    ensures
        nl_pos(s) == s.len(),
    decreases s.len(),
{
    if s.len() > 0 {
        assert(forall|j: int| 0 <= j < s.len() - 1 ==> s.drop_first()[j] == s[j + 1]);
        lemma_nl_pos_none(s.drop_first());
    }
}

fn make_pad(spaces: usize) -> (r: String)
    ensures
        r@ == pad_seq(spaces as nat),
{
    let mut out = String::new();
    let mut i: usize = 0;
    proof {
        assert(out@ =~= pad_seq(0));
    }
    while i < spaces
        invariant
            i <= spaces,
            out@ == pad_seq(i as nat),
        decreases spaces - i,
    {
        out.append(" ");
        proof {
            reveal_strlit(" ");
            assert(out@ =~= pad_seq((i + 1) as nat));
        }
        i += 1;
    }
    out
}

/// Indents every line of `message` by `spaces` spaces and joins the indented
/// lines with the line endings dropped.
pub fn indent(message: &str, spaces: usize) -> (r: String)
    ensures
        r@ == indented(message@, pad_seq(spaces as nat)),
{
    let pad = make_pad(spaces);
    let len = message.unicode_len();
    let mut out = String::new();
    let mut start: usize = 0;
    let mut i: usize = 0;
    proof {
        assert(message@.skip(0) =~= message@);
        assert(out@ + indented(message@.skip(0), pad@) =~= indented(message@, pad@));
    }
    while i < len
        invariant
            len == message@.len(),
            pad@ == pad_seq(spaces as nat),
            start <= i <= len,
            forall|j: int| start <= j < i ==> message@[j] != '\n',
            indented(message@, pad@) == out@ + indented(message@.skip(start as int), pad@),
        decreases len - i,
    {
        let ch = message.get_char(i);
        if ch == '\n' {
            let end = if i > start && message.get_char(i - 1) == '\r' {
                i - 1
            } else {
                i
            };
            let line = message.substring_char(start, end);
            let ghost out0 = out@;
            out.append(pad.as_str());
            out.append(line);
            proof {
                let t = message@.skip(start as int);
                assert(forall|j: int| 0 <= j < i - start ==> t[j] == message@[j + start]);
                lemma_nl_pos_at(t, i - start);
                assert(chomp_cr(t.take(i - start)) =~= line@);
                assert(t.skip(i - start + 1) =~= message@.skip(i + 1));
                assert(out@ =~= out0 + pad@ + chomp_cr(t.take(i - start)));
                assert(out0 + indented(t, pad@) =~= out@ + indented(message@.skip(i + 1), pad@));
            }
            start = i + 1;
        }
        i += 1;
    }
    if start < len {
        let line = message.substring_char(start, len);
        let ghost out0 = out@;
        out.append(pad.as_str());
        out.append(line);
        proof {
            let t = message@.skip(start as int);
            assert(forall|j: int| 0 <= j < t.len() ==> t[j] == message@[j + start]);
            lemma_nl_pos_none(t);
            assert(t =~= line@);
            assert(indented(t, pad@) == pad@ + t);
            assert(out@ =~= out0 + indented(t, pad@));
        }
    } else {
        proof {
            assert(message@.skip(start as int) =~= Seq::<char>::empty());
            assert(out@ + indented(message@.skip(start as int), pad@) =~= out@);
        }
    }
    out
}

/// The width of the tool tag that prefixes every status label.
pub fn default_ident() -> (r: usize)
    ensures
        r == 8,
{
    proof {
        reveal_strlit("[cross] ");
    }
    "[cross] ".unicode_len()
}

} // verus!
