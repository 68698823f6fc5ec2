//! The report: every setting's value with a label for the source that
//! decided it.

use crate::config::{Config, Setter, TetrsColour, TetrsDifficulty, Value};
use crate::outside::{debugged_path, displayed_path, path_debug_text, path_text};
use std::path::PathBuf;
use vstd::prelude::*;
use vstd::string::StringExecFns;

verus! {

/// The character of a decimal digit.
pub open spec fn digit(d: nat) -> char {
    if d == 0 {
        '0'
    } else if d == 1 {
        '1'
    } else if d == 2 {
        '2'
    } else if d == 3 {
        '3'
    } else if d == 4 {
        '4'
    } else if d == 5 {
        '5'
    } else if d == 6 {
        '6'
    } else if d == 7 {
        '7'
    } else if d == 8 {
        '8'
    } else {
        '9'
    }
}

/// A number written in decimal digits, without leading zeros.
pub open spec fn decimal(n: nat) -> Seq<char>
    decreases n,
{
    if n < 10 {
        seq![digit(n)]
    } else {
        decimal(n / 10).push(digit(n % 10))
    }
}

/// The name of a colour mode.
pub open spec fn colour_name(colour: TetrsColour) -> Seq<char> {
    match colour {
        TetrsColour::Never => "Never"@,
        TetrsColour::Falling => "Falling"@,
        TetrsColour::Line => "Line"@,
        TetrsColour::Always => "Always"@,
    }
}

/// The name of a difficulty.
pub open spec fn difficulty_name(difficulty: TetrsDifficulty) -> Seq<char> {
    match difficulty {
        TetrsDifficulty::Noob => "Noob"@,
        TetrsDifficulty::Easy => "Easy"@,
        TetrsDifficulty::Normal => "Normal"@,
        TetrsDifficulty::Hard => "Hard"@,
        TetrsDifficulty::Expert => "Expert"@,
        TetrsDifficulty::Incremental => "Incremental"@,
    }
}

/// A value that the report can show.
pub trait Describe {
    /// The text that stands for the value in the report.
    spec fn text(&self) -> Seq<char>;

    /// Writes the value as the report shows it.
    fn describe(&self) -> (shown: String)
        ensures
            shown@ == self.text(),
    ;
}

/// The decimal digit `d` as a string of one character.
fn digit_str(d: u16) -> (shown: &'static str)
    requires
        d < 10,
    ensures
        shown@ == seq![digit(d as nat)],
{
    proof {
        reveal_strlit("0");
        reveal_strlit("1");
        reveal_strlit("2");
        reveal_strlit("3");
        reveal_strlit("4");
        reveal_strlit("5");
        reveal_strlit("6");
        reveal_strlit("7");
        reveal_strlit("8");
        reveal_strlit("9");
    }
    match d {
        0 => "0",
        1 => "1",
        2 => "2",
        3 => "3",
        4 => "4",
        5 => "5",
        6 => "6",
        7 => "7",
        8 => "8",
        _ => "9",
    }
}

/// Writes a number in decimal digits.
pub fn decimal_string(n: u16) -> (shown: String)
    ensures
        shown@ == decimal(n as nat),
    decreases n,
{
    if n < 10 {
        String::from_str(digit_str(n))
    } else {
        let mut shown = decimal_string(n / 10);
        shown.append(digit_str(n % 10));
        shown
    }
}

impl Describe for u8 {
    open spec fn text(&self) -> Seq<char> {
        decimal(*self as nat)
    }

    fn describe(&self) -> (shown: String) {
        decimal_string(*self as u16)
    }
}

impl Describe for u16 {
    open spec fn text(&self) -> Seq<char> {
        decimal(*self as nat)
    }

    fn describe(&self) -> (shown: String) {
        decimal_string(*self)
    }
}

impl Describe for bool {
    open spec fn text(&self) -> Seq<char> {
        if *self {
            "true"@
        } else {
            "false"@
        }
    }

    fn describe(&self) -> (shown: String) {
        if *self {
            String::from_str("true")
        } else {
            String::from_str("false")
        }
    }
}

impl Describe for TetrsColour {
    open spec fn text(&self) -> Seq<char> {
        colour_name(*self)
    }

    fn describe(&self) -> (shown: String) {
        match self {
            TetrsColour::Never => String::from_str("Never"),
            TetrsColour::Falling => String::from_str("Falling"),
            TetrsColour::Line => String::from_str("Line"),
            TetrsColour::Always => String::from_str("Always"),
        }
    }
}

impl Describe for TetrsDifficulty {
    open spec fn text(&self) -> Seq<char> {
        difficulty_name(*self)
    }

    fn describe(&self) -> (shown: String) {
        match self {
            TetrsDifficulty::Noob => String::from_str("Noob"),
            TetrsDifficulty::Easy => String::from_str("Easy"),
            TetrsDifficulty::Normal => String::from_str("Normal"),
            TetrsDifficulty::Hard => String::from_str("Hard"),
            TetrsDifficulty::Expert => String::from_str("Expert"),
            TetrsDifficulty::Incremental => String::from_str("Incremental"),
        }
    }
}

impl Describe for PathBuf {
    open spec fn text(&self) -> Seq<char> {
        path_debug_text(*self)
    }

    fn describe(&self) -> (shown: String) {
        debugged_path(self)
    }
}

impl<'a, T: Describe> Describe for &'a T {
    open spec fn text(&self) -> Seq<char> {
        (**self).text()
    }

    fn describe(&self) -> (shown: String) {
        (**self).describe()
    }
}

impl Setter {
    /// The label that the report gives a source; a file's label holds the
    /// file's path.
    pub open spec fn label_text(self) -> Seq<char> {
        match self {
            Setter::Default => "Default Value"@,
            Setter::Environment => "Environment Variables"@,
            Setter::File(path) => "File '"@ + path_text(path) + "'"@,
            Setter::Command => "Command Arguments"@,
        }
    }

    /// Writes the source's label.
    pub fn label(&self) -> (shown: String)
        ensures
            shown@ == self.label_text(),
    {
        match self {
            Setter::Default => String::from_str("Default Value"),
            Setter::Environment => String::from_str("Environment Variables"),
            Setter::File(path) => {
                let mut shown = String::from_str("File '");
                shown.append(displayed_path(path).as_str());
                shown.append("'");
                shown
            },
            Setter::Command => String::from_str("Command Arguments"),
        }
    }
}

impl<T: Describe> Value<T> {
    /// A setting as the report shows it: the value, then in brackets the
    /// label of the source that decided it.
    pub open spec fn text(&self) -> Seq<char> {
        self.value.text() + " — ("@ + self.set_by.label_text() + ")"@
    }

    /// Writes the setting as the report shows it.
    pub fn render(&self) -> (shown: String)
        ensures
            shown@ == self.text(),
    {
        let mut shown = self.value.describe();
        shown.append(" — (");
        shown.append(self.set_by.label().as_str());
        shown.append(")");
        shown
    }
}

impl<'a> Config<'a> {
    /// The report of a run's settings, one line for each.
    pub open spec fn report_text(&self) -> Seq<char> {
        "\nConfig:     "@ + self.config.text() + "\nDebug:      "@ + self.debug.text()
            + "\nColour:     "@ + self.colour.text() + "\nDifficulty: "@ + self.difficulty.text()
            + "\nNo Hold:    "@ + self.no_hold.text() + "\nLine Limit: "@ + self.limit.text()
            + "\nWidth:      "@ + self.width.text() + "\nHeight:     "@ + self.height.text()
            + "\n        "@
    }

    /// Writes the report of a run's settings.
    pub fn render(&self) -> (shown: String)
        ensures
            shown@ == self.report_text(),
    {
        let mut shown = String::from_str("\nConfig:     ");
        shown.append(self.config.render().as_str());
        shown.append("\nDebug:      ");
        shown.append(self.debug.render().as_str());
        shown.append("\nColour:     ");
        shown.append(self.colour.render().as_str());
        shown.append("\nDifficulty: ");
        shown.append(self.difficulty.render().as_str());
        shown.append("\nNo Hold:    ");
        shown.append(self.no_hold.render().as_str());
        shown.append("\nLine Limit: ");
        shown.append(self.limit.render().as_str());
        shown.append("\nWidth:      ");
        shown.append(self.width.render().as_str());
        shown.append("\nHeight:     ");
        shown.append(self.height.render().as_str());
        shown.append("\n        ");
        shown
    }
}

} // verus!
