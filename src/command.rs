use vstd::prelude::*;

use crate::error::CalcError;
use crate::text::{lemma_words_nonempty, split_words, string_of, views_of, words};

verus! {

/// One of the four arithmetic operators.
#[derive(Clone, Copy, Debug, PartialEq, Eq, Structural)]
pub enum Operator {
    Add,
    Sub,
    Mul,
    Div,
}

/// The operator a symbol names, or `InvalidOperator`.
pub open spec fn operator_of(c: char) -> Result<Operator, CalcError> {
    if c == '+' {
        Ok(Operator::Add)
    } else if c == '-' {
        Ok(Operator::Sub)
    } else if c == '*' {
        Ok(Operator::Mul)
    } else if c == '/' {
        Ok(Operator::Div)
    } else {
        Err(CalcError::InvalidOperator)
    }
}

impl Operator {
    pub fn from_char(c: char) -> (r: Result<Operator, CalcError>)
        ensures
            r == operator_of(c),
    {
        if c == '+' {
            Ok(Operator::Add)
        } else if c == '-' {
            Ok(Operator::Sub)
        } else if c == '*' {
            Ok(Operator::Mul)
        } else if c == '/' {
            Ok(Operator::Div)
        } else {
            Err(CalcError::InvalidOperator)
        }
    }

    pub fn symbol(&self) -> (r: char)
        ensures
            operator_of(r) == Ok::<Operator, CalcError>(*self),
    {
        match self {
            Operator::Add => '+',
            Operator::Sub => '-',
            Operator::Mul => '*',
            Operator::Div => '/',
        }
    }
}

/// Whether a word is exactly the one character `c`.
pub fn is_single(w: &Vec<char>, c: char) -> (r: bool)
    ensures
        r == (w@ == seq![c]),
{
    if w.len() == 1 {
        assert(w@ =~= seq![w@[0]]);
        w[0] == c
    } else {
        false
    }
}

/// What a line typed at the main menu selects.
#[derive(Clone, Copy, Debug, PartialEq, Eq, Structural)]
pub enum MenuChoice {
    Basic,
    Rpn,
    Exit,
    Invalid,
}

/// A line selects a mode when, surrounding whitespace aside, it is exactly `1`, `2` or `3`.
pub open spec fn menu_choice_of(ws: Seq<Seq<char>>) -> MenuChoice {
    if ws == seq![seq!['1']] {
        MenuChoice::Basic
    } else if ws == seq![seq!['2']] {
        MenuChoice::Rpn
    } else if ws == seq![seq!['3']] {
        MenuChoice::Exit
    } else {
        MenuChoice::Invalid
    }
}

/// Whether the words of a line are exactly the one word `c`.
pub open spec fn is_lone(ws: Seq<Seq<char>>, c: char) -> bool {
    ws == seq![seq![c]]
}

pub fn lone_word(ws: &Vec<Vec<char>>, c: char) -> (r: bool)
    ensures
        r == is_lone(views_of(ws@), c),
{
    if ws.len() == 1 {
        let b = is_single(&ws[0], c);
        assert(views_of(ws@) =~= seq![ws@[0]@]);
        if !b {
            assert(views_of(ws@)[0] != seq![c]);
        }
        b
    } else {
        assert(views_of(ws@).len() != seq![seq![c]].len());
        false
    }
}

pub fn parse_menu_choice(line: &str) -> (r: MenuChoice)
    ensures
        r == menu_choice_of(words(line@)),
{
    let ws = split_words(line);
    if lone_word(&ws, '1') {
        MenuChoice::Basic
    } else if lone_word(&ws, '2') {
        MenuChoice::Rpn
    } else if lone_word(&ws, '3') {
        MenuChoice::Exit
    } else {
        MenuChoice::Invalid
    }
}

/// A line of basic mode, taken apart; numbers stay as the text typed.
#[derive(Clone, Debug, PartialEq, Eq)]
pub enum BasicCommand {
    Quit,
    Store,
    Recall,
    SetValue(String),
    Apply(char, String),
    Invalid,
}

/// `cmd` is what the words `ws` of a basic-mode line say: `q`, `m`, `r`, one word
/// (a number to set), two words (an operator symbol, its first character, and a
/// number), or anything else.
pub open spec fn describes(ws: Seq<Seq<char>>, cmd: BasicCommand) -> bool {
    if is_lone(ws, 'q') {
        cmd is Quit
    } else if is_lone(ws, 'm') {
        cmd is Store
    } else if is_lone(ws, 'r') {
        cmd is Recall
    } else if ws.len() == 1 {
        cmd matches BasicCommand::SetValue(t) && t@ == ws[0]
    } else if ws.len() == 2 {
        cmd matches BasicCommand::Apply(c, t) && c == ws[0][0] && t@ == ws[1]
    } else {
        cmd is Invalid
    }
}

pub fn parse_basic_command(line: &str) -> (r: BasicCommand)
    ensures
        describes(words(line@), r),
{
    let ws = split_words(line);
    proof {
        assert(forall|k: int| 0 <= k < ws@.len() ==> views_of(ws@)[k] == ws@[k]@);
    }
    if lone_word(&ws, 'q') {
        BasicCommand::Quit
    } else if lone_word(&ws, 'm') {
        BasicCommand::Store
    } else if lone_word(&ws, 'r') {
        BasicCommand::Recall
    } else if ws.len() == 1 {
        BasicCommand::SetValue(string_of(&ws[0]))
    } else if ws.len() == 2 {
        proof {
            assert(words(line@)[0].len() > 0) by {
                lemma_words_nonempty(line@, 0);
            }
        }
        BasicCommand::Apply(ws[0][0], string_of(&ws[1]))
    } else {
        BasicCommand::Invalid
    }
}

} // verus!
