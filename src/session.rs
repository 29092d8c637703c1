use vstd::prelude::*;

use crate::accumulator::{applies, Accumulator};
use crate::command::{
    is_lone,
    menu_choice_of,
    parse_basic_command,
    parse_menu_choice,
    BasicCommand,
    MenuChoice,
    Operator,
};
use crate::error::CalcError;
use crate::text::{string_of, words};

verus! {

/// Where an interactive session stands.
#[derive(Clone, Copy, Debug, PartialEq, Eq, Structural)]
pub enum Mode {
    MainMenu,
    Basic,
    Rpn,
    Terminated,
}

/// The mode a session moves to when the line with words `ws` is read in `mode`.
///
/// At the menu, `1`, `2` and `3` select basic mode, RPN mode and the end; anything
/// else stays at the menu. In either calculator mode `q` goes back to the menu and
/// any other line stays. A terminated session stays terminated.
pub open spec fn mode_after(mode: Mode, ws: Seq<Seq<char>>) -> Mode {
    match mode {
        Mode::MainMenu => match menu_choice_of(ws) {
            MenuChoice::Basic => Mode::Basic,
            MenuChoice::Rpn => Mode::Rpn,
            MenuChoice::Exit => Mode::Terminated,
            MenuChoice::Invalid => Mode::MainMenu,
        },
        Mode::Basic | Mode::Rpn => if is_lone(ws, 'q') {
            Mode::MainMenu
        } else {
            mode
        },
        Mode::Terminated => Mode::Terminated,
    }
}

/// Reads one menu line: the mode it selects, or `InvalidChoice`.
pub fn menu_step(line: &str) -> (r: Result<Mode, CalcError>)
    ensures
        menu_choice_of(words(line@)) is Invalid ==> r == Err::<Mode, CalcError>(
            CalcError::InvalidChoice,
        ),
        !(menu_choice_of(words(line@)) is Invalid) ==> r == Ok::<Mode, CalcError>(
            mode_after(Mode::MainMenu, words(line@)),
        ),
{
    match parse_menu_choice(line) {
        MenuChoice::Basic => Ok(Mode::Basic),
        MenuChoice::Rpn => Ok(Mode::Rpn),
        MenuChoice::Exit => Ok(Mode::Terminated),
        MenuChoice::Invalid => Err(CalcError::InvalidChoice),
    }
}

/// The mode after reading `line` in `mode`.
pub fn next_mode(mode: Mode, line: &str) -> (r: Mode)
    ensures
        r == mode_after(mode, words(line@)),
{
    match mode {
        Mode::MainMenu => match menu_step(line) {
            Ok(m) => m,
            Err(_) => Mode::MainMenu,
        },
        Mode::Basic | Mode::Rpn => {
            match parse_basic_command(line) {
                BasicCommand::Quit => Mode::MainMenu,
                _ => mode,
            }
        },
        Mode::Terminated => Mode::Terminated,
    }
}

/// What one line of basic mode did.
#[derive(Clone, Copy, Debug, PartialEq, Eq)]
pub enum BasicOutcome<T> {
    /// Back to the menu.
    Quit,
    /// The working value went to memory; this is the memory now.
    Stored(T),
    /// Memory came back into the working value; this is it now.
    Recalled(T),
    /// The working value was set to this number.
    Current(T),
    /// An operation was applied; this is its result.
    Computed(T),
    /// Nothing changed, for this reason.
    Failed(CalcError),
}

/// `parse` may read the text `w` as `p`.
pub open spec fn reads_as<T, P>(parse: P, w: Seq<char>, p: Option<T>) -> bool where
    P: Fn(String) -> Option<T>,
 {
    exists|s: String| #[trigger] parse.ensures((s,), p) && s@ == w
}

/// `r` and `new` are a possible outcome of the basic-mode line with words `ws` on `old`.
///
/// `q` quits, `m` stores, `r` recalls. A lone number sets the working value. An
/// operator and a number apply the operator (its first character); the number is
/// read first. Any other shape is `InvalidInput`. A failure changes nothing.
pub open spec fn basic_effect<T, P, Z, C>(
    ws: Seq<Seq<char>>,
    old: Accumulator<T>,
    parse: P,
    is_zero: Z,
    compute: C,
    new: Accumulator<T>,
    r: BasicOutcome<T>,
) -> bool where
    T: Copy,
    P: Fn(String) -> Option<T>,
    Z: Fn(T) -> bool,
    C: Fn(Operator, T, T) -> T,
 {
    if is_lone(ws, 'q') {
        r == BasicOutcome::<T>::Quit && new == old
    } else if is_lone(ws, 'm') {
        new == old.after_store() && r == BasicOutcome::Stored(new.memory)
    } else if is_lone(ws, 'r') {
        new == old.after_recall() && r == BasicOutcome::Recalled(new.current)
    } else if ws.len() == 1 {
        exists|p: Option<T>|
            #[trigger] reads_as(parse, ws[0], p) && match p {
                None => r == BasicOutcome::<T>::Failed(CalcError::InvalidNumber) && new == old,
                Some(v) => r == BasicOutcome::Current(v) && new == Accumulator {
                    current: v,
                    memory: old.memory,
                },
            }
    } else if ws.len() == 2 {
        exists|p: Option<T>|
            #[trigger] reads_as(parse, ws[1], p) && match p {
                None => r == BasicOutcome::<T>::Failed(CalcError::InvalidNumber) && new == old,
                Some(x) => exists|a: Result<T, CalcError>|
                    #[trigger] applies(old, ws[0][0], x, is_zero, compute, new, a) && match a {
                        Ok(v) => r == BasicOutcome::Computed(v),
                        Err(e) => r == BasicOutcome::<T>::Failed(e),
                    },
            }
    } else {
        r == BasicOutcome::<T>::Failed(CalcError::InvalidInput) && new == old
    }
}

/// Carries out one line of basic mode on `acc`; see `basic_effect`.
pub fn basic_step<T, P, Z, C>(
    acc: &mut Accumulator<T>,
    line: &str,
    parse: P,
    is_zero: Z,
    compute: C,
) -> (r: BasicOutcome<T>) where
    T: Copy,
    P: Fn(String) -> Option<T>,
    Z: Fn(T) -> bool,
    C: Fn(Operator, T, T) -> T,

    requires
        forall|s: String| parse.requires((s,)),
        forall|x: T| is_zero.requires((x,)),
        forall|op: Operator, a: T, b: T| compute.requires((op, a, b)),
    ensures
        basic_effect(words(line@), *old(acc), parse, is_zero, compute, *final(acc), r),
{
    let ghost ws = words(line@);
    match parse_basic_command(line) {
        BasicCommand::Quit => BasicOutcome::Quit,
        BasicCommand::Store => BasicOutcome::Stored(acc.store()),
        BasicCommand::Recall => BasicOutcome::Recalled(acc.recall()),
        BasicCommand::SetValue(text) => {
            let ghost t = text;
            let p = parse(text);
            assert(reads_as(parse, ws[0], p)) by {
                assert(parse.ensures((t,), p));
            }
            match p {
                Some(v) => {
                    acc.set(v);
                    BasicOutcome::Current(v)
                },
                None => BasicOutcome::Failed(CalcError::InvalidNumber),
            }
        },
        BasicCommand::Apply(symbol, text) => {
            let ghost t = text;
            let p = parse(text);
            assert(reads_as(parse, ws[1], p)) by {
                assert(parse.ensures((t,), p));
            }
            match p {
                Some(x) => {
                    let ghost before = *acc;
                    let a = acc.apply(symbol, x, is_zero, compute);
                    assert(applies(before, ws[0][0], x, is_zero, compute, *acc, a));
                    match a {
                        Ok(v) => BasicOutcome::Computed(v),
                        Err(e) => BasicOutcome::Failed(e),
                    }
                },
                None => BasicOutcome::Failed(CalcError::InvalidNumber),
            }
        },
        BasicCommand::Invalid => BasicOutcome::Failed(CalcError::InvalidInput),
    }
}

/// At the menu, `3` ends the session, and a line that is not `1`, `2` or `3`
/// leaves it at the menu.
pub proof fn lemma_menu_dispatch(line: Seq<char>)
    ensures
        words(line) == seq![seq!['3']] ==> mode_after(Mode::MainMenu, words(line))
            == Mode::Terminated,
        words(line) != seq![seq!['1']] && words(line) != seq![seq!['2']] && words(line)
            != seq![seq!['3']] ==> mode_after(Mode::MainMenu, words(line)) == Mode::MainMenu,
{
    let three: Seq<Seq<char>> = seq![seq!['3']];
    assert(three[0][0] == '3');
    assert(three != seq![seq!['1']]) by {
        assert(seq![seq!['1']][0][0] == '1');
    }
    assert(three != seq![seq!['2']]) by {
        assert(seq![seq!['2']][0][0] == '2');
    }
}

} // verus!
