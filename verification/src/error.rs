//! The failures this library reports, and the list that collects the soft ones.
use vstd::prelude::*;
use vstd::string::*;
use crate::digits::{decimal, push_decimal};

verus! {

/// Everything that can go wrong while an offset is set, resolved or rendered.
#[derive(Debug, PartialEq, Eq)]
pub enum Error {
    /// The cache is being written or read elsewhere and the write was given up.
    WriteLock,
    /// The cache could not be read.
    ReadLock,
    /// The output of the date command holds no offset.
    Parse,
    /// Hours, minutes and seconds that name no offset of this library.
    Time,
    /// A point in time that the timestamp layout has no room for.
    TimeFormat,
    /// Offset hours outside `-12..=14`.
    InvalidOffsetHours(i8),
    /// Offset minutes outside `0..=59`.
    InvalidOffsetMinutes(i8),
    /// A string that is no offset of the form `[+|-]HH[:]MM`.
    InvalidOffsetString,
    /// The date command could not be run; the text says why.
    TimeCommand(String),
    /// The date command ran and ended without success; its exit code, where
    /// the platform gave one.
    CommandFailed(Option<i32>),
    /// The date command wrote bytes that are no UTF-8.
    NotUtf8,
    /// The offset moved the current time out of the range of representable dates.
    DatetimeOverflow,
    /// Nothing has been stored in the cache yet.
    Uninitialized,
}

impl Error {
    /// What `message` says of this failure: a fixed sentence, followed by the
    /// refused number or by the reason where the failure carries one.
    pub open spec fn message_text(&self) -> Seq<char> {
        match self {
            Error::InvalidOffsetHours(hours) => self.fixed_message()@ + ": "@ + decimal(
                *hours as int,
            ),
            Error::InvalidOffsetMinutes(minutes) => self.fixed_message()@ + ": "@ + decimal(
                *minutes as int,
            ),
            Error::TimeCommand(why) => self.fixed_message()@ + ": "@ + why@,
            _ => self.fixed_message()@,
        }
    }

    /// A sentence for this failure.
    pub fn message(&self) -> (text: String)
        ensures
            text@ == self.message_text(),
    {
        let mut text = String::from_str(self.fixed_text());
        match self {
            Error::InvalidOffsetHours(hours) => {
                text.append(": ");
                push_decimal(&mut text, *hours);
            },
            Error::InvalidOffsetMinutes(minutes) => {
                text.append(": ");
                push_decimal(&mut text, *minutes);
            },
            Error::TimeCommand(why) => {
                text.append(": ");
                text.append(why.as_str());
            },
            _ => {},
        }
        text
    }

    /// The sentence of a failure that carries no text of its own.
    pub open spec fn fixed_message(&self) -> &'static str {
        match self {
            Error::WriteLock => "Unable to acquire a write lock",
            Error::ReadLock => "Unable to acquire a read lock",
            Error::Parse => "Unable to parse time",
            Error::Time => "Unable to construct offset from offset hours/minutes",
            Error::TimeFormat => "Unable to format timestamp",
            Error::InvalidOffsetHours(_) => "Invalid offset hours",
            Error::InvalidOffsetMinutes(_) => "Invalid offset minutes",
            Error::InvalidOffsetString => "Unable to parse offset string",
            Error::TimeCommand(_) => "Error executing command to get system time",
            Error::CommandFailed(_) => "Command to get system time ended without success",
            Error::NotUtf8 => "Output of command to get system time is not UTF-8",
            Error::DatetimeOverflow => "Datetime overflow",
            Error::Uninitialized => "The global offset is not initialized.",
        }
    }

    fn fixed_text(&self) -> (text: &'static str)
        ensures
            text@ == self.fixed_message()@,
    {
        match self {
            Error::WriteLock => "Unable to acquire a write lock",
            Error::ReadLock => "Unable to acquire a read lock",
            Error::Parse => "Unable to parse time",
            Error::Time => "Unable to construct offset from offset hours/minutes",
            Error::TimeFormat => "Unable to format timestamp",
            Error::InvalidOffsetHours(_) => "Invalid offset hours",
            Error::InvalidOffsetMinutes(_) => "Invalid offset minutes",
            Error::InvalidOffsetString => "Unable to parse offset string",
            Error::TimeCommand(_) => "Error executing command to get system time",
            Error::CommandFailed(_) => "Command to get system time ended without success",
            Error::NotUtf8 => "Output of command to get system time is not UTF-8",
            Error::DatetimeOverflow => "Datetime overflow",
            Error::Uninitialized => "The global offset is not initialized.",
        }
    }
}

/// The soft failures of one resolution, in the order in which they happened.
#[derive(Debug)]
pub struct Errors(Vec<Error>);

impl View for Errors {
    type V = Seq<Error>;

    closed spec fn view(&self) -> Seq<Error> {
        self.0@
    }
}

impl Errors {
    /// An empty list.
    pub fn new() -> (errs: Self)
        ensures
            errs@ == Seq::<Error>::empty(),
    {
        Errors(Vec::new())
    }

    /// Adds `e` at the end.
    pub fn push(&mut self, e: Error)
        ensures
            final(self)@ == old(self)@.push(e),
    {
        self.0.push(e)
    }

    /// How many failures were collected.
    pub fn len(&self) -> (n: usize)
        ensures
            n == self@.len(),
    {
        self.0.len()
    }

    /// Whether nothing failed.
    pub fn is_empty(&self) -> (empty: bool)
        ensures
            empty <==> self@.len() == 0,
    {
        self.0.len() == 0
    }

    /// The failure at position `i`, if there is one.
    pub fn get(&self, i: usize) -> (e: Option<&Error>)
        ensures
            i < self@.len() ==> e == Some(&self@[i as int]),
            i >= self@.len() ==> e is None,
    {
        if i < self.0.len() {
            Some(&self.0[i])
        } else {
            None
        }
    }
}

} // verus!
