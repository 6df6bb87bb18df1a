use earth::command::{parse_command_words, try_command, ArgumentParseError, CommandParseError, ConsoleCommand};
use earth::{AddCity, AddForest, GridVec, TileRequest};

fn at(x: i32, y: i32, z: i32) -> GridVec {
    GridVec::new(x, y, z).unwrap()
}

#[test]
fn simple_commands() {
    assert_eq!(try_command("clear"), Ok(ConsoleCommand::Clear));
    assert_eq!(try_command("  clear  "), Ok(ConsoleCommand::Clear));
    assert_eq!(try_command("q"), Ok(ConsoleCommand::Quit));
    assert_eq!(try_command("quit"), Ok(ConsoleCommand::Quit));
    assert_eq!(try_command("exit"), Ok(ConsoleCommand::Quit));
    assert_eq!(try_command("generate"), Ok(ConsoleCommand::Generate));
    assert_eq!(try_command("save"), Ok(ConsoleCommand::Save("./seed".to_string())));
    assert_eq!(try_command("load /tmp/world.seed"), Ok(ConsoleCommand::Load("/tmp/world.seed".to_string())));
}

#[test]
fn command_errors() {
    assert_eq!(try_command(""), Err(CommandParseError::NoCommand));
    assert_eq!(try_command(" \t "), Err(CommandParseError::NoCommand));
    assert_eq!(try_command("frobnicate now"), Err(CommandParseError::UnknownCommand("frobnicate".to_string())));
    assert_eq!(try_command("add"), Err(CommandParseError::NoBiome));
    assert_eq!(try_command("add desert at 0n"), Err(CommandParseError::UnsupportedBiome("desert".to_string())));
    assert_eq!(try_command("add forest 2n"), Err(CommandParseError::Arguments(ArgumentParseError::ExpectedAt)));
    assert_eq!(try_command("add city at 2n"), Err(CommandParseError::Arguments(ArgumentParseError::ExpectedLayout)));
    assert_eq!(try_command("add city layout"), Err(CommandParseError::Arguments(ArgumentParseError::ExpectedLayout)));
    assert_eq!(
        try_command("add city layout x at 2n"),
        Err(CommandParseError::Arguments(ArgumentParseError::LayoutParseError))
    );
    assert_eq!(try_command("add city layout 2 2n"), Err(CommandParseError::Arguments(ArgumentParseError::ExpectedAt)));
    assert_eq!(try_command("add ocean at zz"), Err(CommandParseError::Arguments(ArgumentParseError::GridVecParseError)));
    assert_eq!(try_command("add ocean at"), Err(CommandParseError::Arguments(ArgumentParseError::GridVecParseError)));
}

#[test]
fn add_commands() {
    assert_eq!(
        try_command("add city layout 1 at 2n 1se"),
        Ok(ConsoleCommand::Add(TileRequest::City(AddCity { layout: 1, grid_position: at(1, 1, -2) })))
    );
    assert_eq!(
        try_command("add\tforest  at\t-1sw"),
        Ok(ConsoleCommand::Add(TileRequest::Forest(AddForest { grid_position: at(1, 0, -1) })))
    );
    assert_eq!(
        try_command("add ocean at 1s"),
        Ok(ConsoleCommand::Add(TileRequest::Ocean { grid_position: at(0, -1, 1) }))
    );
}

#[test]
fn tile_argument_parsers() {
    assert_eq!(
        AddCity::try_from_args(&vec!["layout", "-3", "at", "1ne"]),
        Ok(AddCity { layout: -3, grid_position: at(1, 0, -1) })
    );
    assert_eq!(AddForest::try_from_args(&vec!["at", "3n"]), Ok(AddForest { grid_position: at(0, 3, -3) }));
    assert_eq!(AddForest::try_from_args(&vec![]), Err(ArgumentParseError::ExpectedAt));
    assert_eq!(TileRequest::ocean_from_args(&vec!["at", "0n"]), Ok(TileRequest::Ocean { grid_position: GridVec::zero() }));
    assert_eq!(ArgumentParseError::ExpectedAt.message(), "expected an \"at\" before location of new tile");
    assert_eq!(parse_command_words(&vec!["save", "a", "b"]), Ok(ConsoleCommand::Save("a".to_string())));
}
