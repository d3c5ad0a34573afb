//! The console primitives: printing, debug printing, asking for a line of
//! input and holding the console until a key is pressed.

use crate::error::{IOError, IOErrorView, ShawtyError, ShawtyErrorView};
use crate::protocol::{outcome_view, Next, NextView};
use crate::text::{trim, trimmed};
use vstd::prelude::*;

verus! {

/// A text to be written to standard output, whole and unchanged.
#[derive(Debug, Clone, PartialEq, Eq)]
pub struct Print {
    /// The characters to write.
    pub text: String,
    /// Whether the text was asked for as a line, so that it ends in a line
    /// terminator.
    pub line: bool,
}

/// The mathematical value of a [`Print`].
pub struct PrintView {
    pub text: Seq<char>,
    pub line: bool,
}

impl View for Print {
    type V = PrintView;

    open spec fn view(&self) -> PrintView {
        PrintView { text: self.text@, line: self.line }
    }
}

impl PrintView {
    /// What is being attempted, as the write failure says it.
    pub open spec fn attempt(self) -> Seq<char> {
        if self.line {
            "Failed to println (Failed to writeln to stdout)"@
        } else {
            "Failed to print. (Failed to write to stdout)"@
        }
    }

    /// The write failure that keeps `fault`.
    pub open spec fn failure(self, fault: std::io::Error) -> ShawtyErrorView {
        ShawtyErrorView::IO(IOErrorView::WriteError { message: self.attempt(), source: fault })
    }

    /// What the write comes to: nothing, or the write failure.
    pub open spec fn finished(self, written: Result<(), std::io::Error>) -> Result<
        (),
        ShawtyErrorView,
    > {
        match written {
            Ok(_) => Ok(()),
            Err(fault) => Err(self.failure(fault)),
        }
    }
}

impl Print {
    /// Takes how the write went and gives what the primitive returns.
    pub fn finish(&self, written: Result<(), std::io::Error>) -> (result: Result<(), ShawtyError>)
        ensures
            outcome_view(result) == self@.finished(written),
    {
        match written {
            Ok(_) => Ok(()),
            Err(fault) => {
                let attempt = if self.line {
                    "Failed to println (Failed to writeln to stdout)"
                } else {
                    "Failed to print. (Failed to write to stdout)"
                };
                Err(
                    ShawtyError::from(
                        IOError::WriteError { message: String::from_str(attempt), source: fault },
                    ),
                )
            },
        }
    }
}

/// Print: asks for `msg` to be written as it is.
pub fn print_no_panic(msg: &str) -> (print: Print)
    ensures
        print@ == (PrintView { text: msg@, line: false }),
{
    Print { text: String::from_str(msg), line: false }
}

/// Print a line: asks for `msg` and a line terminator to be written.
pub fn println_no_panic(msg: &str) -> (print: Print)
    ensures
        print@ == (PrintView { text: msg@ + "\n"@, line: true }),
{
    Print { text: String::from_str(msg).concat("\n"), line: true }
}

/// Debug print: asks for `msg` to be written as a line that starts with
/// `[DEBUG] `.
pub fn dp(msg: &str) -> (print: Print)
    ensures
        print@ == (PrintView { text: "[DEBUG] "@ + msg@ + "\n"@, line: true }),
{
    let message = String::from_str("[DEBUG] ").concat(msg);
    println_no_panic(message.as_str())
}

/// A step of [`input`].
#[derive(Debug)]
pub enum InputStep {
    /// Write the prompt to standard output.
    Prompt(Print),
    /// Flush standard output.
    Flush,
    /// Read one line from standard input.
    ReadLine,
}

/// The mathematical value of an [`InputStep`].
pub enum InputStepView {
    Prompt(PrintView),
    Flush,
    ReadLine,
}

impl View for InputStep {
    type V = InputStepView;

    open spec fn view(&self) -> InputStepView {
        match *self {
            InputStep::Prompt(print) => InputStepView::Prompt(print@),
            InputStep::Flush => InputStepView::Flush,
            InputStep::ReadLine => InputStepView::ReadLine,
        }
    }
}

/// What a step read, or the fault that stopped it.
pub open spec fn read_view(outcome: Result<String, std::io::Error>) -> Result<
    Seq<char>,
    std::io::Error,
> {
    match outcome {
        Ok(text) => Ok(text@),
        Err(fault) => Err(fault),
    }
}

/// The steps of [`input`] when none fails, in their order: the prompt is
/// written, unless it is empty; output is flushed; the line is read.
pub open spec fn input_script(msg: Seq<char>) -> Seq<InputStepView> {
    if msg.len() == 0 {
        seq![InputStepView::Flush, InputStepView::ReadLine]
    } else {
        seq![
            InputStepView::Prompt(PrintView { text: msg, line: false }),
            InputStepView::Flush,
            InputStepView::ReadLine,
        ]
    }
}

impl InputStepView {
    /// How many steps the primitive may still take, this one included.
    pub open spec fn steps_left(self) -> nat {
        match self {
            InputStepView::Prompt(_) => 3,
            InputStepView::Flush => 2,
            InputStepView::ReadLine => 1,
        }
    }

    /// What follows the step, given how it went.
    pub open spec fn resumed(self, outcome: Result<Seq<char>, std::io::Error>) -> NextView<
        InputStepView,
        Seq<char>,
    > {
        match (self, outcome) {
            (InputStepView::Prompt(_), Ok(_)) => NextView::Perform(InputStepView::Flush),
            (InputStepView::Prompt(print), Err(fault)) => NextView::Finished(
                Err(print.failure(fault)),
            ),
            (InputStepView::Flush, Ok(_)) => NextView::Perform(InputStepView::ReadLine),
            (InputStepView::Flush, Err(fault)) => NextView::Finished(
                Err(ShawtyErrorView::IO(IOErrorView::FlushError { source: fault })),
            ),
            (InputStepView::ReadLine, Ok(line)) => NextView::Finished(Ok(trimmed(line))),
            (InputStepView::ReadLine, Err(fault)) => NextView::Finished(
                Err(
                    ShawtyErrorView::IO(
                        IOErrorView::ReadError {
                            message: "Failed to get input (Failed to read stdin)"@,
                            source: fault,
                        },
                    ),
                ),
            ),
        }
    }
}

/// Input: names the first step of asking for a line. An empty `msg` is
/// never written, not even as an empty line; any other `msg` is written as
/// it is, before anything is read.
pub fn input(msg: &str) -> (step: InputStep)
    ensures
        step@ == input_script(msg@)[0],
        msg@.len() == 0 ==> step@ == InputStepView::Flush,
        msg@.len() > 0 ==> step@ == InputStepView::Prompt(PrintView { text: msg@, line: false }),
{
    if msg.is_empty() {
        InputStep::Flush
    } else {
        InputStep::Prompt(print_no_panic(msg))
    }
}

impl InputStep {
    /// Takes how the step went and says what follows. `outcome` holds what
    /// the step read, which is of use after `ReadLine` only, or the fault
    /// that stopped it. After the last step the result is the line that was
    /// read, without the whitespace around it. The first fault ends the
    /// primitive.
    pub fn resume(self, outcome: Result<String, std::io::Error>) -> (next: Next<InputStep, String>)
        ensures
            next@ == self@.resumed(read_view(outcome)),
    {
        match self {
            InputStep::Prompt(print) => {
                let written = match outcome {
                    Ok(_) => Ok(()),
                    Err(fault) => Err(fault),
                };
                match print.finish(written) {
                    Ok(_) => Next::Perform(InputStep::Flush),
                    Err(error) => Next::Finished(Err(error)),
                }
            },
            InputStep::Flush => match outcome {
                Ok(_) => Next::Perform(InputStep::ReadLine),
                Err(fault) => Next::Finished(
                    Err(ShawtyError::from(IOError::FlushError { source: fault })),
                ),
            },
            InputStep::ReadLine => match outcome {
                Ok(line) => Next::Finished(Ok(trim(line.as_str()))),
                Err(fault) => Next::Finished(
                    Err(
                        ShawtyError::from(
                            IOError::ReadError {
                                message: String::from_str(
                                    "Failed to get input (Failed to read stdin)",
                                ),
                                source: fault,
                            },
                        ),
                    ),
                ),
            },
        }
    }
}

/// A run of `input` follows its script: it starts with the script's first
/// step; a step that went well is followed by the next one, and the last
/// one by the trimmed line; a step that failed ends the run with an error.
/// So the prompt is written at most once, first, and only if it is not
/// empty.
pub proof fn lemma_input_follows_script(
    msg: Seq<char>,
    k: int,
    text: Seq<char>,
    fault: std::io::Error,
)
    requires
        0 <= k < input_script(msg).len(),
    ensures
        forall|j: int|
            0 < j < input_script(msg).len() ==> !(#[trigger] input_script(msg)[j] is Prompt),
        input_script(msg)[0] is Prompt <==> msg.len() > 0,
        input_script(msg)[0] matches InputStepView::Prompt(print) ==> print.text == msg,
        input_script(msg).last() == InputStepView::ReadLine,
        k + 1 < input_script(msg).len() ==> input_script(msg)[k].resumed(Ok(text))
            == NextView::<InputStepView, Seq<char>>::Perform(input_script(msg)[k + 1]),
        k + 1 == input_script(msg).len() ==> input_script(msg)[k].resumed(Ok(text))
            == NextView::<InputStepView, Seq<char>>::Finished(Ok(trimmed(text))),
        input_script(msg)[k].resumed(Err(fault)) matches NextView::Finished(Err(_)),
{
}

/// No step of `input` is tried again: each step that follows another
/// leaves fewer steps to take, so the primitive ends after three outcomes
/// at most.
pub proof fn lemma_input_never_retries(
    step: InputStepView,
    outcome: Result<Seq<char>, std::io::Error>,
)
    ensures
        step.resumed(outcome) matches NextView::Perform(next) ==> next.steps_left()
            < step.steps_left(),
        step.steps_left() == 1 ==> step.resumed(outcome) is Finished,
        outcome is Err ==> step.resumed(outcome) matches NextView::Finished(Err(_)),
{
}

/// A step of [`hold_console`].
#[derive(Debug)]
pub enum HoldStep {
    /// Write the message line to standard output.
    Announce(Print),
    /// Read a single byte from standard input.
    AwaitKey,
}

/// The mathematical value of a [`HoldStep`].
pub enum HoldStepView {
    Announce(PrintView),
    AwaitKey,
}

impl View for HoldStep {
    type V = HoldStepView;

    open spec fn view(&self) -> HoldStepView {
        match *self {
            HoldStep::Announce(print) => HoldStepView::Announce(print@),
            HoldStep::AwaitKey => HoldStepView::AwaitKey,
        }
    }
}

/// The line that [`hold_console`] shows: the caller's message, or the
/// default one.
pub open spec fn hold_line(message: Option<Seq<char>>) -> Seq<char> {
    match message {
        Some(text) => text + "\n"@,
        None => "Press 'Enter' to continue..."@ + "\n"@,
    }
}

impl HoldStepView {
    /// How many steps the primitive may still take, this one included.
    pub open spec fn steps_left(self) -> nat {
        match self {
            HoldStepView::Announce(_) => 2,
            HoldStepView::AwaitKey => 1,
        }
    }

    /// What follows the step, given how it went.
    pub open spec fn resumed(self, outcome: Result<(), std::io::Error>) -> NextView<
        HoldStepView,
        (),
    > {
        match (self, outcome) {
            (HoldStepView::Announce(_), Ok(_)) => NextView::Perform(HoldStepView::AwaitKey),
            (HoldStepView::Announce(print), Err(fault)) => NextView::Finished(
                Err(print.failure(fault)),
            ),
            (HoldStepView::AwaitKey, Ok(_)) => NextView::Finished(Ok(())),
            (HoldStepView::AwaitKey, Err(fault)) => NextView::Finished(
                Err(
                    ShawtyErrorView::IO(
                        IOErrorView::ReadError {
                            message: "Failed to hold console. (Failed to read stdin)"@,
                            source: fault,
                        },
                    ),
                ),
            ),
        }
    }
}

/// Hold the console: names the first step, which writes `message` as a
/// line, or the default line where there is none. The key is awaited after
/// that.
pub fn hold_console(message: Option<&str>) -> (step: HoldStep)
    ensures
        step@ == HoldStepView::Announce(
            PrintView {
                text: hold_line(
                    match message {
                        Some(text) => Some(text@),
                        None => None,
                    },
                ),
                line: true,
            },
        ),
{
    match message {
        Some(text) => HoldStep::Announce(println_no_panic(text)),
        None => HoldStep::Announce(println_no_panic("Press 'Enter' to continue...")),
    }
}

impl HoldStep {
    /// Takes how the step went and says what follows. The first fault ends
    /// the primitive.
    pub fn resume(self, outcome: Result<(), std::io::Error>) -> (next: Next<HoldStep, ()>)
        ensures
            next@ == self@.resumed(outcome),
    {
        match self {
            HoldStep::Announce(print) => match print.finish(outcome) {
                Ok(_) => Next::Perform(HoldStep::AwaitKey),
                Err(error) => Next::Finished(Err(error)),
            },
            HoldStep::AwaitKey => match outcome {
                Ok(_) => Next::Finished(Ok(())),
                Err(fault) => Next::Finished(
                    Err(
                        ShawtyError::from(
                            IOError::ReadError {
                                message: String::from_str(
                                    "Failed to hold console. (Failed to read stdin)",
                                ),
                                source: fault,
                            },
                        ),
                    ),
                ),
            },
        }
    }
}

/// No step of `hold_console` is tried again: the message is written
/// once, then the key is awaited once, and the first fault ends the
/// primitive.
pub proof fn lemma_hold_console_never_retries(
    step: HoldStepView,
    outcome: Result<(), std::io::Error>,
)
    ensures
        step.resumed(outcome) matches NextView::Perform(next) ==> next.steps_left()
            < step.steps_left(),
        step.steps_left() == 1 ==> step.resumed(outcome) is Finished,
        outcome is Err ==> step.resumed(outcome) matches NextView::Finished(Err(_)),
{
}

} // verus!
