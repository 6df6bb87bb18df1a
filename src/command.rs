use vstd::prelude::*;
use vstd::string::*;
use crate::generation::{AddCity, AddForest, TileRequest};
use crate::hex::{Cube, GridVec};
use crate::text::{arg_chars, args_value, magnitude_of, parse_i32};

verus! {

/// Why the arguments of a tile command could not be read.
#[derive(Clone, Copy, PartialEq, Eq, Structural, Debug)]
pub enum ArgumentParseError {
    ExpectedAt,
    ExpectedLayout,
    LayoutParseError,
    GridVecParseError,
}

/// The sentence that explains `e`.
pub open spec fn argument_error_message(e: ArgumentParseError) -> Seq<char> {
    match e {
        ArgumentParseError::ExpectedAt => "expected an \"at\" before location of new tile"@,
        ArgumentParseError::ExpectedLayout => "expected \"layout\" after biome name"@,
        ArgumentParseError::LayoutParseError => "malformed layout argument"@,
        ArgumentParseError::GridVecParseError => "malformed grid vector argument"@,
    }
}

impl ArgumentParseError {
    /// A sentence that explains the error.
    pub fn message(&self) -> (r: &'static str)
        ensures
            r@ == argument_error_message(*self),
    {
        match self {
            ArgumentParseError::ExpectedAt => "expected an \"at\" before location of new tile",
            ArgumentParseError::ExpectedLayout => "expected \"layout\" after biome name",
            ArgumentParseError::LayoutParseError => "malformed layout argument",
            ArgumentParseError::GridVecParseError => "malformed grid vector argument",
        }
    }
}

/// A command typed at the console.
#[derive(Clone, PartialEq, Eq, Debug)]
pub enum ConsoleCommand {
    /// Place one tile.
    Add(TileRequest),
    /// Destroy every tile.
    Clear,
    /// Leave the program.
    Quit,
    /// Save the last generation seed to a file.
    Save(String),
    /// Load a seed from a file.
    Load(String),
    /// Generate a new world.
    Generate,
}

/// Why a console command could not be read.
#[derive(Clone, PartialEq, Eq, Debug)]
pub enum CommandParseError {
    /// The line holds no word.
    NoCommand,
    /// The first word names no command.
    UnknownCommand(String),
    /// `add` was given no biome.
    NoBiome,
    /// `add` was given a biome it does not know.
    UnsupportedBiome(String),
    /// The arguments after the biome are malformed.
    Arguments(ArgumentParseError),
}

/// The cell that `at <grid vector>` names, or why it names none.
pub open spec fn at_value(args: Seq<Seq<char>>) -> Result<Cube, ArgumentParseError> {
    if args.len() == 0 || args[0] != "at"@ {
        Err(ArgumentParseError::ExpectedAt)
    } else {
        match args_value(args.drop_first()) {
            Some(c) => Ok(c),
            None => Err(ArgumentParseError::GridVecParseError),
        }
    }
}

/// The layout and cell that `layout <i32> at <grid vector>` names, or why
/// it names none.
pub open spec fn city_value(args: Seq<Seq<char>>) -> Result<(i32, Cube), ArgumentParseError> {
    if args.len() < 2 || args[0] != "layout"@ {
        Err(ArgumentParseError::ExpectedLayout)
    } else {
        match magnitude_of(args[1]) {
            None => Err(ArgumentParseError::LayoutParseError),
            Some(layout) => match at_value(args.subrange(2, args.len() as int)) {
                Ok(c) => Ok((layout as i32, c)),
                Err(e) => Err(e),
            },
        }
    }
}

/// True when `s` holds the same characters as `w`.
fn is_word(s: &str, w: &str) -> (r: bool)
    ensures
        r == (s@ == w@),
{
    let n = s.unicode_len();
    if n != w.unicode_len() {
        return false;
    }
    let mut i: usize = 0;
    while i < n
        invariant
            n == s@.len(),
            n == w@.len(),
            i <= n,
            forall|j: int| 0 <= j < i ==> s@[j] == w@[j],
        decreases n - i,
    {
        if s.get_char(i) != w.get_char(i) {
            return false;
        }
        i = i + 1;
    }
    assert(s@ =~= w@);
    true
}

/// The arguments from index `start` on.
fn rest_of<'a>(args: &Vec<&'a str>, start: usize) -> (r: Vec<&'a str>)
    requires
        start <= args@.len(),
    ensures
        r@ == args@.subrange(start as int, args@.len() as int),
{
    let mut r: Vec<&'a str> = Vec::new();
    let mut i: usize = start;
    while i < args.len()
        invariant
            start <= i <= args@.len(),
            r@ == args@.subrange(start as int, i as int),
        decreases args@.len() - i,
    {
        r.push(args[i]);
        i = i + 1;
    }
    r
}

proof fn lemma_arg_chars_subrange(args: Seq<&str>, start: int)
    requires
        0 <= start <= args.len(),
    ensures
        arg_chars(args.subrange(start, args.len() as int)) == arg_chars(args).subrange(start, args.len() as int),
{
    assert(arg_chars(args.subrange(start, args.len() as int)) =~= arg_chars(args).subrange(start, args.len() as int));
}

/// Reads `at <grid vector>`.
fn parse_at(args: &Vec<&str>) -> (r: Result<GridVec, ArgumentParseError>)
    ensures
        match at_value(arg_chars(args@)) {
            Ok(c) => r matches Ok(v) && v@ == c,
            Err(e) => r == Err::<GridVec, ArgumentParseError>(e),
        },
{
    let ghost chars = arg_chars(args@);
    if args.len() == 0 || !is_word(args[0], "at") {
        return Err(ArgumentParseError::ExpectedAt);
    }
    let rest = rest_of(args, 1);
    proof {
        lemma_arg_chars_subrange(args@, 1);
        assert(chars.drop_first() =~= chars.subrange(1, chars.len() as int));
    }
    match GridVec::try_from_args(&rest) {
        Ok(v) => Ok(v),
        Err(_) => Err(ArgumentParseError::GridVecParseError),
    }
}

impl AddCity {
    /// Reads a city tile request from `layout <i32> at <grid vector>`.
    pub fn try_from_args(args: &Vec<&str>) -> (r: Result<AddCity, ArgumentParseError>)
        ensures
            match city_value(arg_chars(args@)) {
                Ok((layout, c)) => r matches Ok(a) && a.layout == layout && a.grid_position@ == c,
                Err(e) => r == Err::<AddCity, ArgumentParseError>(e),
            },
    {
        let ghost chars = arg_chars(args@);
        if args.len() < 2 || !is_word(args[0], "layout") {
            return Err(ArgumentParseError::ExpectedLayout);
        }
        assert(chars[1] == args@[1]@);
        let layout = match parse_i32(args[1]) {
            Some(l) => l,
            None => return Err(ArgumentParseError::LayoutParseError),
        };
        let rest = rest_of(args, 2);
        proof {
            lemma_arg_chars_subrange(args@, 2);
        }
        match parse_at(&rest) {
            Ok(grid_position) => Ok(AddCity { layout, grid_position }),
            Err(e) => Err(e),
        }
    }
}

impl AddForest {
    /// Reads a forest tile request from `at <grid vector>`.
    pub fn try_from_args(args: &Vec<&str>) -> (r: Result<AddForest, ArgumentParseError>)
        ensures
            match at_value(arg_chars(args@)) {
                Ok(c) => r matches Ok(a) && a.grid_position@ == c,
                Err(e) => r == Err::<AddForest, ArgumentParseError>(e),
            },
    {
        match parse_at(args) {
            Ok(grid_position) => Ok(AddForest { grid_position }),
            Err(e) => Err(e),
        }
    }
}

impl TileRequest {
    /// Reads an ocean tile request from `at <grid vector>`.
    pub fn ocean_from_args(args: &Vec<&str>) -> (r: Result<TileRequest, ArgumentParseError>)
        ensures
            match at_value(arg_chars(args@)) {
                Ok(c) => r matches Ok(TileRequest::Ocean { grid_position }) && grid_position@ == c,
                Err(e) => r == Err::<TileRequest, ArgumentParseError>(e),
            },
    {
        match parse_at(args) {
            Ok(grid_position) => Ok(TileRequest::Ocean { grid_position }),
            Err(e) => Err(e),
        }
    }
}

/// What `add <biome> <arguments>` gives.
pub open spec fn add_parsed(args: Seq<Seq<char>>, r: Result<ConsoleCommand, CommandParseError>) -> bool {
    if args.len() == 0 {
        r == Err::<ConsoleCommand, CommandParseError>(CommandParseError::NoBiome)
    } else {
        let rest = args.drop_first();
        if args[0] == "city"@ {
            match city_value(rest) {
                Ok((layout, c)) => r matches Ok(ConsoleCommand::Add(TileRequest::City(a))) && a.layout == layout
                    && a.grid_position@ == c,
                Err(e) => r == Err::<ConsoleCommand, CommandParseError>(CommandParseError::Arguments(e)),
            }
        } else if args[0] == "forest"@ {
            match at_value(rest) {
                Ok(c) => r matches Ok(ConsoleCommand::Add(TileRequest::Forest(a))) && a.grid_position@ == c,
                Err(e) => r == Err::<ConsoleCommand, CommandParseError>(CommandParseError::Arguments(e)),
            }
        } else if args[0] == "ocean"@ {
            match at_value(rest) {
                Ok(c) => r matches Ok(ConsoleCommand::Add(TileRequest::Ocean { grid_position })) && grid_position@
                    == c,
                Err(e) => r == Err::<ConsoleCommand, CommandParseError>(CommandParseError::Arguments(e)),
            }
        } else {
            r matches Err(CommandParseError::UnsupportedBiome(s)) && s@ == args[0]
        }
    }
}

/// The file a `save` or `load` command names: its first argument, or
/// `./seed`.
pub open spec fn path_argument(args: Seq<Seq<char>>) -> Seq<char> {
    if args.len() > 0 {
        args[0]
    } else {
        "./seed"@
    }
}

/// What the console line whose words are `words` gives.
pub open spec fn command_parsed(words: Seq<Seq<char>>, r: Result<ConsoleCommand, CommandParseError>) -> bool {
    if words.len() == 0 {
        r == Err::<ConsoleCommand, CommandParseError>(CommandParseError::NoCommand)
    } else {
        let name = words[0];
        let rest = words.drop_first();
        if name == "add"@ {
            add_parsed(rest, r)
        } else if name == "clear"@ {
            r == Ok::<ConsoleCommand, CommandParseError>(ConsoleCommand::Clear)
        } else if name == "quit"@ || name == "q"@ || name == "exit"@ {
            r == Ok::<ConsoleCommand, CommandParseError>(ConsoleCommand::Quit)
        } else if name == "save"@ {
            r matches Ok(ConsoleCommand::Save(p)) && p@ == path_argument(rest)
        } else if name == "load"@ {
            r matches Ok(ConsoleCommand::Load(p)) && p@ == path_argument(rest)
        } else if name == "generate"@ {
            r == Ok::<ConsoleCommand, CommandParseError>(ConsoleCommand::Generate)
        } else {
            r matches Err(CommandParseError::UnknownCommand(s)) && s@ == name
        }
    }
}

/// Reads `<biome> <arguments>` after `add`.
fn parse_add(args: &Vec<&str>) -> (r: Result<ConsoleCommand, CommandParseError>)
    ensures
        add_parsed(arg_chars(args@), r),
{
    let ghost chars = arg_chars(args@);
    if args.len() == 0 {
        return Err(CommandParseError::NoBiome);
    }
    let biome = args[0];
    assert(chars[0] == biome@);
    let rest = rest_of(args, 1);
    proof {
        lemma_arg_chars_subrange(args@, 1);
        assert(chars.drop_first() =~= chars.subrange(1, chars.len() as int));
    }
    if is_word(biome, "city") {
        match AddCity::try_from_args(&rest) {
            Ok(a) => Ok(ConsoleCommand::Add(TileRequest::City(a))),
            Err(e) => Err(CommandParseError::Arguments(e)),
        }
    } else if is_word(biome, "forest") {
        match AddForest::try_from_args(&rest) {
            Ok(a) => Ok(ConsoleCommand::Add(TileRequest::Forest(a))),
            Err(e) => Err(CommandParseError::Arguments(e)),
        }
    } else if is_word(biome, "ocean") {
        match TileRequest::ocean_from_args(&rest) {
            Ok(t) => Ok(ConsoleCommand::Add(t)),
            Err(e) => Err(CommandParseError::Arguments(e)),
        }
    } else {
        Err(CommandParseError::UnsupportedBiome(String::from_str(biome)))
    }
}

/// The path argument of `save` or `load`.
fn path_of(args: &Vec<&str>) -> (r: String)
    ensures
        r@ == path_argument(arg_chars(args@)),
{
    if args.len() > 0 {
        String::from_str(args[0])
    } else {
        String::from_str("./seed")
    }
}

/// Reads a console command from its words.
pub fn parse_command_words(words: &Vec<&str>) -> (r: Result<ConsoleCommand, CommandParseError>)
    ensures
        command_parsed(arg_chars(words@), r),
{
    let ghost chars = arg_chars(words@);
    if words.len() == 0 {
        return Err(CommandParseError::NoCommand);
    }
    let name = words[0];
    assert(chars[0] == name@);
    let rest = rest_of(words, 1);
    proof {
        lemma_arg_chars_subrange(words@, 1);
        assert(chars.drop_first() =~= chars.subrange(1, chars.len() as int));
    }
    if is_word(name, "add") {
        parse_add(&rest)
    } else if is_word(name, "clear") {
        Ok(ConsoleCommand::Clear)
    } else if is_word(name, "quit") || is_word(name, "q") || is_word(name, "exit") {
        Ok(ConsoleCommand::Quit)
    } else if is_word(name, "save") {
        Ok(ConsoleCommand::Save(path_of(&rest)))
    } else if is_word(name, "load") {
        Ok(ConsoleCommand::Load(path_of(&rest)))
    } else if is_word(name, "generate") {
        Ok(ConsoleCommand::Generate)
    } else {
        Err(CommandParseError::UnknownCommand(String::from_str(name)))
    }
}

/// The words of `s`, as `str::split_whitespace` separates them.
pub uninterp spec fn whitespace_words(s: Seq<char>) -> Seq<Seq<char>>;

/// Relies on `str::split_whitespace`: the words of `s` in order, split at
/// runs of Unicode white space, with none empty. The result depends on the
/// characters of `s` alone.
#[verifier::external_body]
fn split_words(s: &str) -> (r: Vec<&str>)
    ensures
        arg_chars(r@) == whitespace_words(s@),
{
    s.split_whitespace().collect()
}

/// Reads a console command from a typed line.
pub fn try_command(command: &str) -> (r: Result<ConsoleCommand, CommandParseError>)
    ensures
        command_parsed(whitespace_words(command@), r),
{
    let words = split_words(command);
    parse_command_words(&words)
}

} // verus!
