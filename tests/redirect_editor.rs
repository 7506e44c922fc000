use ludusavi::{
    EditAction, RedirectEditActionField, RedirectEditor, RedirectError, RedirectList, RedirectRule,
    HISTORY_CAPACITY,
};

fn rules(editor: &RedirectEditor) -> Vec<(String, String)> {
    let list = editor.redirects();
    (0..list.len())
        .map(|i| {
            let r = list.get(i).unwrap();
            (r.source.clone(), r.target.clone())
        })
        .collect()
}

fn pair(s: &str, t: &str) -> (String, String) {
    (s.to_string(), t.to_string())
}

#[test]
fn add_change_add_remove_scenario() {
    let mut editor = RedirectEditor::new();
    assert_eq!(editor.apply(EditAction::Add), Ok(()));
    assert_eq!(rules(&editor), vec![pair("", "")]);

    assert_eq!(
        editor.apply(EditAction::Change(0, RedirectEditActionField::Source, "/a".to_string())),
        Ok(())
    );
    assert_eq!(rules(&editor), vec![pair("/a", "")]);
    assert_eq!(editor.row(0).unwrap().source_text_history.current(), "/a");

    assert_eq!(editor.apply(EditAction::Add), Ok(()));
    assert_eq!(rules(&editor), vec![pair("/a", ""), pair("", "")]);

    assert_eq!(editor.apply(EditAction::Remove(0)), Ok(()));
    assert_eq!(rules(&editor), vec![pair("", "")]);
    assert_eq!(editor.len(), 1);
    let row = editor.row(0).unwrap();
    assert_eq!(row.source_text_history.current(), "");
    assert!(row.source_text_history.undo_stack().is_empty());
    assert!(row.target_text_history.undo_stack().is_empty());
}

#[test]
fn remove_on_empty_editor_is_rejected() {
    let mut editor = RedirectEditor::new();
    assert_eq!(editor.apply(EditAction::Remove(0)), Err(RedirectError::IndexOutOfRange));
    assert_eq!(editor.len(), 0);
    assert_eq!(editor.redirects().len(), 0);
}

#[test]
fn remove_past_end_changes_nothing() {
    let mut editor = RedirectEditor::new();
    editor.apply(EditAction::Add).unwrap();
    editor
        .apply(EditAction::Change(0, RedirectEditActionField::Target, "/t".to_string()))
        .unwrap();
    assert_eq!(editor.apply(EditAction::Remove(1)), Err(RedirectError::IndexOutOfRange));
    assert_eq!(editor.apply(EditAction::Remove(7)), Err(RedirectError::IndexOutOfRange));
    assert_eq!(rules(&editor), vec![pair("", "/t")]);
    assert_eq!(editor.len(), 1);
    assert_eq!(editor.row(0).unwrap().target_text_history.undo_stack(), vec!["".to_string()]);
}

#[test]
fn change_past_end_is_rejected() {
    let mut editor = RedirectEditor::new();
    editor.apply(EditAction::Add).unwrap();
    assert_eq!(
        editor.apply(EditAction::Change(1, RedirectEditActionField::Source, "/x".to_string())),
        Err(RedirectError::IndexOutOfRange)
    );
    assert_eq!(rules(&editor), vec![pair("", "")]);
    assert!(editor.row(0).unwrap().source_text_history.undo_stack().is_empty());
}

#[test]
fn lengths_stay_equal_over_mixed_actions() {
    let mut editor = RedirectEditor::new();
    let actions = vec![
        EditAction::Add,
        EditAction::Add,
        EditAction::Remove(5),
        EditAction::Change(1, RedirectEditActionField::Target, "/b".to_string()),
        EditAction::Add,
        EditAction::Remove(0),
        EditAction::Change(3, RedirectEditActionField::Source, "/c".to_string()),
        EditAction::Remove(1),
        EditAction::Remove(0),
        EditAction::Remove(0),
    ];
    for action in actions {
        let _ = editor.apply(action);
        assert_eq!(editor.len(), editor.redirects().len());
        for i in 0..editor.len() {
            assert!(editor.row(i).is_some());
        }
        assert!(editor.row(editor.len()).is_none());
    }
    assert_eq!(editor.len(), 0);
}

#[test]
fn duplicate_rules_are_kept() {
    let mut editor = RedirectEditor::new();
    for _ in 0..2 {
        editor.apply(EditAction::Add).unwrap();
    }
    for i in 0..2 {
        editor
            .apply(EditAction::Change(i, RedirectEditActionField::Source, "/s".to_string()))
            .unwrap();
        editor
            .apply(EditAction::Change(i, RedirectEditActionField::Target, "/t".to_string()))
            .unwrap();
    }
    assert_eq!(rules(&editor), vec![pair("/s", "/t"), pair("/s", "/t")]);
}

#[test]
fn editor_over_existing_list_seeds_histories() {
    let list = RedirectList::from_rules(vec![RedirectRule::new("/a", "/b"), RedirectRule::new("/c", "/d")]);
    let editor = RedirectEditor::from_list(list);
    assert_eq!(rules(&editor), vec![pair("/a", "/b"), pair("/c", "/d")]);
    let row = editor.row(1).unwrap();
    assert_eq!(row.source_text_history.current(), "/c");
    assert_eq!(row.target_text_history.current(), "/d");
    assert_eq!(row.source_text_history.capacity(), HISTORY_CAPACITY);
    assert_eq!(HISTORY_CAPACITY, 100);
    assert!(row.source_text_history.undo_stack().is_empty());
}

#[test]
fn editor_undo_and_redo_update_the_rule() {
    let mut editor = RedirectEditor::new();
    editor.apply(EditAction::Add).unwrap();
    editor
        .apply(EditAction::Change(0, RedirectEditActionField::Source, "/a".to_string()))
        .unwrap();
    editor
        .apply(EditAction::Change(0, RedirectEditActionField::Source, "/ab".to_string()))
        .unwrap();
    assert_eq!(editor.undo(0, RedirectEditActionField::Source), Ok(Some("/a".to_string())));
    assert_eq!(rules(&editor), vec![pair("/a", "")]);
    assert_eq!(editor.undo(0, RedirectEditActionField::Target), Ok(None));
    assert_eq!(editor.redo(0, RedirectEditActionField::Source), Ok(Some("/ab".to_string())));
    assert_eq!(rules(&editor), vec![pair("/ab", "")]);
    assert_eq!(editor.redo(0, RedirectEditActionField::Source), Ok(None));
    assert_eq!(editor.undo(3, RedirectEditActionField::Source), Err(RedirectError::IndexOutOfRange));
    assert_eq!(editor.redo(1, RedirectEditActionField::Target), Err(RedirectError::IndexOutOfRange));
    assert_eq!(rules(&editor), vec![pair("/ab", "")]);
}

#[test]
fn list_add_remove_change() {
    let mut list = RedirectList::new();
    assert!(list.is_empty());
    assert_eq!(list.remove(0), Err(RedirectError::IndexOutOfRange));
    list.add(RedirectRule::new("/1", "/x"));
    list.add(RedirectRule::empty());
    list.add(RedirectRule::new("/3", "/z"));
    assert_eq!(list.len(), 3);
    assert_eq!(list.change(1, RedirectEditActionField::Target, "not a path\u{0}"), Ok(()));
    assert_eq!(list.get(1).unwrap().target, "not a path\u{0}");
    assert_eq!(list.change(3, RedirectEditActionField::Target, "/q"), Err(RedirectError::IndexOutOfRange));
    assert_eq!(list.remove(0), Ok(()));
    assert_eq!(list.len(), 2);
    assert_eq!(list.get(0).unwrap().field(RedirectEditActionField::Target), "not a path\u{0}");
    assert_eq!(list.get(1).unwrap().field(RedirectEditActionField::Source), "/3");
    assert!(list.get(2).is_none());
    let copy = list.get(1).unwrap().duplicate();
    assert_eq!(copy.source, "/3");
    assert_eq!(copy.target, "/z");
}
