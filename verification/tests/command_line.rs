use timer::music::command_line::{parse_command, CommandAction, CommandLine, KeyCode};

#[test]
fn parse_add_command() {
    let action = parse_command("add https://example.com/stream");
    assert!(matches!(action, CommandAction::AddUrl(url) if url == "https://example.com/stream"));
}

#[test]
fn parse_add_shorthand() {
    let action = parse_command("a https://example.com/stream");
    assert!(matches!(action, CommandAction::AddUrl(_)));
}

#[test]
fn parse_load_command() {
    let action = parse_command("load https://example.com/podcast.xml");
    assert!(matches!(action, CommandAction::LoadUrl(url) if url == "https://example.com/podcast.xml"));
}

#[test]
fn parse_radio_command() {
    let action = parse_command("radio");
    assert!(matches!(action, CommandAction::LoadRadio));
}

#[test]
fn parse_clear_command() {
    let action = parse_command("clear");
    assert!(matches!(action, CommandAction::ClearQueue));
}

#[test]
fn parse_vol_command() {
    let action = parse_command("vol 75");
    assert!(matches!(action, CommandAction::SetVolume(75)));
}

#[test]
fn parse_vol_clamps_to_100() {
    let action = parse_command("vol 200");
    assert!(matches!(action, CommandAction::SetVolume(100)));
}

#[test]
fn parse_seek_forward() {
    let action = parse_command("seek +30");
    assert!(matches!(action, CommandAction::Seek(30)));
}

#[test]
fn parse_seek_backward() {
    let action = parse_command("seek -10");
    assert!(matches!(action, CommandAction::Seek(-10)));
}

#[test]
fn parse_help() {
    let action = parse_command("help");
    assert!(matches!(action, CommandAction::ShowHelp));
}

#[test]
fn parse_unknown_returns_none() {
    let action = parse_command("foobar");
    assert!(matches!(action, CommandAction::NoOp));
}

#[test]
fn parse_sources_command() {
    let action = parse_command("sources");
    assert!(matches!(action, CommandAction::ShowSources));
}

#[test]
fn parse_station_add() {
    let action = parse_command("station add Jazz FM https://jazz.example.com/stream");
    match action {
        CommandAction::StationAdd { name, url } => {
            assert_eq!(name, "Jazz FM");
            assert_eq!(url, "https://jazz.example.com/stream");
        }
        other => panic!("expected StationAdd, got {other:?}"),
    }
}

#[test]
fn parse_station_rm() {
    let action = parse_command("station rm Jazz FM");
    assert!(matches!(action, CommandAction::StationRemove(name) if name == "Jazz FM"));
}

#[test]
fn parse_station_list() {
    let action = parse_command("station list");
    assert!(matches!(action, CommandAction::StationList));
}

#[test]
fn parse_station_shorthand() {
    let action = parse_command("st ls");
    assert!(matches!(action, CommandAction::StationList));
}

#[test]
fn handle_escape_dismisses() {
    let mut cl = CommandLine::new();
    cl.activate();
    assert!(cl.is_active());
    cl.handle_key(KeyCode::Esc);
    assert!(!cl.is_active());
}

#[test]
fn handle_char_inserts_at_cursor() {
    let mut cl = CommandLine::new();
    cl.activate();
    cl.handle_key(KeyCode::Char('a'));
    cl.handle_key(KeyCode::Char('b'));
    cl.handle_key(KeyCode::Char('c'));
    assert_eq!(cl.display().0, "abc");
    assert_eq!(cl.display().1, 3);
}

#[test]
fn handle_backspace_deletes_before_cursor() {
    let mut cl = CommandLine::new();
    cl.activate();
    cl.handle_key(KeyCode::Char('a'));
    cl.handle_key(KeyCode::Char('b'));
    cl.handle_key(KeyCode::Backspace);
    assert_eq!(cl.display().0, "a");
    assert_eq!(cl.display().1, 1);
}

#[test]
fn handle_left_right_moves_cursor() {
    let mut cl = CommandLine::new();
    cl.activate();
    cl.handle_key(KeyCode::Char('a'));
    cl.handle_key(KeyCode::Char('b'));
    cl.handle_key(KeyCode::Left);
    assert_eq!(cl.display().1, 1);
    cl.handle_key(KeyCode::Char('x'));
    assert_eq!(cl.display().0, "axb");
}

#[test]
fn enter_returns_parsed_action() {
    let mut cl = CommandLine::new();
    cl.activate();
    for ch in "add https://x.com".chars() {
        cl.handle_key(KeyCode::Char(ch));
    }
    let action = cl.handle_key(KeyCode::Enter);
    assert!(matches!(action, Some(CommandAction::AddUrl(_))));
    assert!(!cl.is_active());
}

#[test]
fn history_navigation() {
    let mut cl = CommandLine::new();

    cl.activate();
    for ch in "add https://a.com".chars() {
        cl.handle_key(KeyCode::Char(ch));
    }
    cl.handle_key(KeyCode::Enter);

    cl.activate();
    for ch in "vol 50".chars() {
        cl.handle_key(KeyCode::Char(ch));
    }
    cl.handle_key(KeyCode::Enter);

    cl.activate();
    cl.handle_key(KeyCode::Up);
    assert_eq!(cl.display().0, "vol 50");
    cl.handle_key(KeyCode::Up);
    assert_eq!(cl.display().0, "add https://a.com");
    cl.handle_key(KeyCode::Down);
    assert_eq!(cl.display().0, "vol 50");
}

#[test]
fn command_line_starts_inactive_and_hidden() {
    let cl = CommandLine::new();
    assert!(!cl.is_active());
    assert!(!cl.is_visible());
    assert!(!cl.is_input());
    assert_eq!(cl.display(), ("", 0));
}

#[test]
fn enter_on_blank_input_gives_nothing() {
    let mut cl = CommandLine::new();
    cl.activate();
    cl.handle_key(KeyCode::Char(' '));
    let action = cl.handle_key(KeyCode::Enter);
    assert!(action.is_none());
    assert!(!cl.is_active());
}

#[test]
fn backspace_undoes_a_typed_character() {
    let mut cl = CommandLine::new();
    cl.activate();
    for ch in "vol".chars() {
        cl.handle_key(KeyCode::Char(ch));
    }
    cl.handle_key(KeyCode::Char('!'));
    cl.handle_key(KeyCode::Backspace);
    assert_eq!(cl.display(), ("vol", 3));
}

#[test]
fn home_end_delete_edit_the_buffer() {
    let mut cl = CommandLine::new();
    cl.activate();
    for ch in "xadd".chars() {
        cl.handle_key(KeyCode::Char(ch));
    }
    cl.handle_key(KeyCode::Home);
    assert_eq!(cl.display().1, 0);
    cl.handle_key(KeyCode::Delete);
    assert_eq!(cl.display().0, "add");
    cl.handle_key(KeyCode::End);
    assert_eq!(cl.display().1, 3);
}

#[test]
fn message_is_shown_until_dismissed() {
    let mut cl = CommandLine::new();
    cl.show_message_at("Saved".to_string(), 1_000);
    assert!(cl.is_visible());
    assert!(!cl.is_input());
    assert_eq!(cl.display(), ("Saved", 0));
    cl.tick_at(1_500);
    assert!(cl.is_visible());
    cl.dismiss();
    assert!(!cl.is_visible());
}

#[test]
fn volume_command_edges() {
    assert!(matches!(parse_command("vol 0"), CommandAction::SetVolume(0)));
    assert!(matches!(parse_command("vol 100"), CommandAction::SetVolume(100)));
    assert!(matches!(parse_command("vol loud"), CommandAction::NoOp));
    assert!(matches!(parse_command("seek"), CommandAction::NoOp));
    assert!(matches!(parse_command("add"), CommandAction::NoOp));
}
