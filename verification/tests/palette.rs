use streamchat::chat::Message;
use streamchat::palette::CommandPalette;

#[test]
fn new_palette_offers_two_actions() {
    let p = CommandPalette::new();
    assert_eq!(p.actions, vec!["quit".to_string(), "open stream".to_string()]);
    assert!(p.current_action.is_empty());
    assert_eq!(p.selected_index, -1);
    assert!(!p.active);
}

#[test]
fn query_selects_matching_actions_and_argument() {
    let mut p = CommandPalette::new();
    p.update_current_from_query("  open stream:  xqc  ".to_string());
    assert_eq!(p.current_action, vec!["open stream".to_string()]);
    assert_eq!(p.current_action_arg, "xqc");
    assert_eq!(p.query, "open stream:  xqc  ");
    assert_eq!(p.selected_index, 0);

    p.update_current_from_query("q".to_string());
    assert_eq!(p.current_action, vec!["quit".to_string()]);
    assert_eq!(p.current_action_arg, "");
    assert_eq!(p.selected_index, 0);

    p.update_current_from_query("zzz".to_string());
    assert!(p.current_action.is_empty());
    // The highlight is kept even when nothing matches.
    assert_eq!(p.selected_index, 0);

    p.update_current_from_query(":arg".to_string());
    assert!(p.current_action.is_empty());
    assert_eq!(p.current_action_arg, "arg");
}

#[test]
fn select_yields_the_highlighted_action() {
    let mut p = CommandPalette::new();
    assert!(p.maybe_select().is_none());
    p.update_current_from_query("open stream: shroud".to_string());
    match p.maybe_select() {
        Some(Message::CommandPaletteHandleAction(action, args)) => {
            assert_eq!(action, "open stream");
            assert_eq!(args, Some(vec!["shroud".to_string()]));
        }
        other => panic!("unexpected {:?}", other),
    }
    p.update_current_from_query("quit".to_string());
    match p.maybe_select() {
        Some(Message::CommandPaletteHandleAction(action, args)) => {
            assert_eq!(action, "quit");
            assert_eq!(args, None);
        }
        other => panic!("unexpected {:?}", other),
    }
}

#[test]
fn highlight_is_clamped_and_fills_the_query() {
    let mut p = CommandPalette::new();
    p.update_current_from_query("o".to_string());
    assert!(p.update_selected_query(5));
    assert_eq!(p.selected_index, 0);
    assert_eq!(p.query, "open stream: ");
    // A query that already has an argument part is kept.
    p.update_current_from_query("open: abc".to_string());
    assert!(p.update_selected_query(0));
    assert_eq!(p.query, "open: abc");
    assert!(!p.update_selected_query(-7));
    assert_eq!(p.selected_index, -1);
    p.update_current_from_query("zzz".to_string());
    assert!(!p.update_selected_query(3));
    assert_eq!(p.selected_index, -1);
}
