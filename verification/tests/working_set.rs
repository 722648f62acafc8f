use nu_keywords::ast::{Block, Signature, SyntaxShape, Type};
use nu_keywords::bytes::{bytes_eq, is_word, name_with_head, to_vec, trim_double_quotes, trim_quotes};
use nu_keywords::decl::{into_block_command, predeclare, Decl};
use nu_keywords::error::{or_error, ParseError};
use nu_keywords::overlay::Overlay;
use nu_keywords::span::{span, Span};
use nu_keywords::table::{NameSet, Table};
use nu_keywords::working_set::WorkingSet;

fn builtin(name: &str) -> Decl {
    Decl::Builtin { signature: Signature::build(name) }
}

fn at(start: usize, end: usize) -> Span {
    Span { start, end }
}

// ---------------------------------------------------------------------------
// spans and bytes
// ---------------------------------------------------------------------------

#[test]
fn span_covers_from_the_first_to_the_last() {
    assert_eq!(span(&[]), at(0, 0));
    assert_eq!(span(&[at(3, 5)]), at(3, 5));
    assert_eq!(span(&[at(3, 5), at(9, 12)]), at(3, 12));
    assert_eq!(span(&[at(3, 5), at(6, 7), at(9, 12)]), at(3, 12));
}

#[test]
fn past_is_the_empty_span_at_the_end() {
    assert_eq!(at(3, 5).past(), at(5, 5));
    assert_eq!(Span::new(0, 0).past(), at(0, 0));
}

#[test]
fn quotes_come_off_in_pairs() {
    assert_eq!(trim_quotes(b"\"abc\""), b"abc");
    assert_eq!(trim_quotes(b"'abc'"), b"abc");
    assert_eq!(trim_quotes(b"abc"), b"abc");
    assert_eq!(trim_quotes(b"\"abc"), b"\"abc");
    assert_eq!(trim_quotes(b"\"abc'"), b"\"abc'");
    assert_eq!(trim_quotes(b"\""), b"\"");
    assert_eq!(trim_quotes(b"\"\""), b"");
    assert_eq!(trim_quotes(b""), b"");
    assert_eq!(trim_quotes(b"\"\"a\"\""), b"\"a\"");
}

#[test]
fn double_quotes_alone_come_off_an_alias_name() {
    assert_eq!(trim_double_quotes(b"\"ll\""), b"ll");
    assert_eq!(trim_double_quotes(b"'ll'"), b"'ll'");
    assert_eq!(trim_double_quotes(b"ll\""), b"ll\"");
    assert_eq!(trim_double_quotes(b"\""), b"\"");
}

#[test]
fn a_member_goes_under_the_head_with_one_space_between() {
    assert_eq!(name_with_head(b"spam", b"foo"), b"spam foo");
    assert_eq!(name_with_head(b"", b"foo"), b" foo");
    assert_eq!(name_with_head(b"spam", b""), b"spam ");
}

#[test]
fn bytes_are_equal_when_each_of_them_is() {
    assert!(bytes_eq(b"abc", b"abc"));
    assert!(bytes_eq(b"", b""));
    assert!(!bytes_eq(b"abc", b"abd"));
    assert!(!bytes_eq(b"abc", b"ab"));
    assert!(!bytes_eq(b"ab", b"abc"));
    assert!(is_word(b"def", "def"));
    assert!(!is_word(b"de", "def"));
    assert!(is_word("gr\u{fc}n".as_bytes(), "gr\u{fc}n"));
    assert_eq!(to_vec(b"abc"), b"abc".to_vec());
}

#[test]
fn the_earlier_error_is_kept() {
    let first = ParseError::NonUtf8(at(1, 2));
    let second = ParseError::ModuleNotFound(at(3, 4));
    assert_eq!(or_error(Some(first.clone()), Some(second.clone())), Some(first.clone()));
    assert_eq!(or_error(Some(first.clone()), None), Some(first));
    assert_eq!(or_error(None, Some(second.clone())), Some(second));
    assert_eq!(or_error(None, None), None);
}

// ---------------------------------------------------------------------------
// tables
// ---------------------------------------------------------------------------

#[test]
fn a_table_holds_the_last_id_given_to_a_name() {
    let mut table = Table::new();
    assert_eq!(table.get(b"a"), None);
    assert_eq!(table.insert(b"a".to_vec(), 1), None);
    assert_eq!(table.insert(b"b".to_vec(), 2), None);
    assert_eq!(table.insert(b"a".to_vec(), 3), Some(1));
    assert_eq!(table.get(b"a"), Some(3));
    assert_eq!(table.get(b"b"), Some(2));
    assert_eq!(table.remove(b"a"), Some(3));
    assert_eq!(table.get(b"a"), None);
    assert_eq!(table.remove(b"a"), None);
    assert_eq!(table.get(b"b"), Some(2));
}

#[test]
fn a_name_set_holds_what_was_put_in_and_not_taken_out() {
    let mut names = NameSet::new();
    assert!(!names.contains(b"a"));
    names.insert(b"a".to_vec());
    names.insert(b"b".to_vec());
    names.insert(b"a".to_vec());
    assert!(names.contains(b"a"));
    assert!(names.contains(b"b"));
    names.remove(b"a");
    assert!(!names.contains(b"a"));
    assert!(names.contains(b"b"));
    names.remove(b"zzz");
    assert!(names.contains(b"b"));
}

// ---------------------------------------------------------------------------
// overlays
// ---------------------------------------------------------------------------

#[test]
fn an_overlay_lists_its_commands_in_the_order_of_entry() {
    let mut overlay = Overlay::new();
    assert_eq!(overlay.decls(), vec![]);
    assert_eq!(overlay.add_decl(b"b", 7), None);
    assert_eq!(overlay.add_decl(b"a", 8), None);
    assert_eq!(overlay.decls(), vec![(b"b".to_vec(), 7), (b"a".to_vec(), 8)]);
    assert_eq!(
        overlay.decls_with_head(b"m"),
        vec![(b"m b".to_vec(), 7), (b"m a".to_vec(), 8)]
    );
    assert_eq!(overlay.get_decl_id(b"a"), Some(8));
    assert_eq!(overlay.get_decl_id(b"c"), None);
    assert_eq!(overlay.decl_with_head(b"a", b"m"), Some((b"m a".to_vec(), 8)));
    assert_eq!(overlay.decl_with_head(b"c", b"m"), None);
}

#[test]
fn an_overlay_keeps_the_place_of_a_name_that_is_given_again() {
    let mut overlay = Overlay::new();
    overlay.add_decl(b"a", 1);
    overlay.add_decl(b"b", 2);
    assert_eq!(overlay.add_decl(b"a", 3), Some(1));
    assert_eq!(overlay.decls(), vec![(b"a".to_vec(), 3), (b"b".to_vec(), 2)]);
}

#[test]
fn an_overlay_keeps_commands_and_variables_apart() {
    let mut overlay = Overlay::new();
    overlay.add_decl(b"a", 1);
    assert_eq!(overlay.add_env_var(b"a", 5), None);
    assert_eq!(overlay.add_env_var(b"e", 6), None);
    assert_eq!(overlay.add_env_var(b"e", 7), Some(6));
    assert!(overlay.has_env_var(b"a"));
    assert!(overlay.has_env_var(b"e"));
    assert!(!overlay.has_env_var(b"x"));
    assert_eq!(overlay.get_decl_id(b"e"), None);
    assert_eq!(overlay.decls(), vec![(b"a".to_vec(), 1)]);
}

// ---------------------------------------------------------------------------
// the working set
// ---------------------------------------------------------------------------

#[test]
fn a_fresh_working_set_holds_nothing() {
    let working_set = WorkingSet::new();
    assert_eq!(working_set.scope_depth(), 0);
    assert_eq!(working_set.next_span_start(), 0);
    assert_eq!(working_set.num_files(), 0);
    assert_eq!(working_set.num_decls(), 0);
    assert_eq!(working_set.num_blocks(), 0);
    assert_eq!(working_set.num_overlays(), 0);
    assert_eq!(working_set.find_decl(b"def"), None);
    assert_eq!(working_set.find_overlay(b"m"), None);
    assert_eq!(working_set.find_variable(b"$x"), None);
    assert_eq!(working_set.find_alias(b"ll"), None);
    assert!(!working_set.plugins_file_dirty());
    assert_eq!(working_set.get_decl(0), None);
    assert!(working_set.get_block(0).is_none());
    assert!(working_set.get_overlay(0).is_none());
    assert_eq!(working_set.get_variable_type(0), None);
}

#[test]
fn scopes_are_left_one_at_a_time() {
    let mut working_set = WorkingSet::new();
    working_set.enter_scope();
    working_set.enter_scope();
    assert_eq!(working_set.scope_depth(), 2);
    working_set.exit_scope();
    assert_eq!(working_set.scope_depth(), 1);
    working_set.exit_scope();
    assert_eq!(working_set.scope_depth(), 0);
    // The outermost frame stays.
    working_set.exit_scope();
    assert_eq!(working_set.scope_depth(), 0);
    working_set.add_decl(builtin("echo"));
    assert_eq!(working_set.find_decl(b"echo"), Some(0));
}

#[test]
fn files_follow_each_other_in_the_buffer() {
    let mut working_set = WorkingSet::new();
    assert_eq!(working_set.add_file("a".to_string(), b"hello"), 0);
    assert_eq!(working_set.next_span_start(), 5);
    assert_eq!(working_set.add_file("b".to_string(), b""), 1);
    assert_eq!(working_set.add_file("c".to_string(), b"world!"), 2);
    assert_eq!(working_set.next_span_start(), 11);
    assert_eq!(working_set.num_files(), 3);
    assert_eq!(working_set.get_span_contents(at(0, 5)), b"hello");
    assert_eq!(working_set.get_span_contents(at(5, 11)), b"world!");
    assert_eq!(working_set.get_span_contents(at(1, 3)), b"el");
    assert_eq!(working_set.get_span_contents(at(4, 4)), b"");
    assert_eq!(working_set.get_span_contents(at(11, 11)), b"");
}

#[test]
fn a_span_outside_the_buffer_covers_nothing() {
    let mut working_set = WorkingSet::new();
    working_set.add_file("a".to_string(), b"hello");
    assert_eq!(working_set.get_span_contents(at(3, 6)), b"");
    assert_eq!(working_set.get_span_contents(at(4, 2)), b"");
    assert_eq!(working_set.get_span_contents(at(7, 9)), b"");
}

#[test]
fn spans_stay_good_when_files_are_added() {
    let mut working_set = WorkingSet::new();
    working_set.add_file("a".to_string(), b"def foo");
    let foo = at(4, 7);
    assert_eq!(working_set.get_span_contents(foo), b"foo");
    working_set.add_file("b".to_string(), b"more text");
    assert_eq!(working_set.get_span_contents(foo), b"foo");
}

#[test]
fn a_declaration_is_found_under_its_name() {
    let mut working_set = WorkingSet::new();
    assert_eq!(working_set.add_decl(builtin("def")), 0);
    assert_eq!(working_set.add_decl(builtin("export def")), 1);
    assert_eq!(working_set.find_decl(b"def"), Some(0));
    assert_eq!(working_set.find_decl(b"export def"), Some(1));
    assert_eq!(working_set.find_decl(b"export"), None);
    assert_eq!(working_set.get_decl(1), Some(&builtin("export def")));
    assert_eq!(working_set.get_decl(2), None);
    // A second declaration of a name takes its place.
    assert_eq!(working_set.add_decl(builtin("def")), 2);
    assert_eq!(working_set.find_decl(b"def"), Some(2));
    assert_eq!(working_set.num_decls(), 3);
}

#[test]
fn a_declaration_of_an_inner_scope_ends_with_the_scope() {
    let mut working_set = WorkingSet::new();
    let outer = working_set.add_decl(builtin("a"));
    working_set.enter_scope();
    let inner = working_set.add_decl(builtin("a"));
    let only_inner = working_set.add_decl(builtin("b"));
    assert_eq!(working_set.find_decl(b"a"), Some(inner));
    assert_eq!(working_set.find_decl(b"b"), Some(only_inner));
    working_set.exit_scope();
    assert_eq!(working_set.find_decl(b"a"), Some(outer));
    assert_eq!(working_set.find_decl(b"b"), None);
    // The declarations themselves are still there.
    assert_eq!(working_set.get_decl(only_inner), Some(&builtin("b")));
}

#[test]
fn a_reserved_name_is_merged_once() {
    let mut working_set = WorkingSet::new();
    assert_eq!(working_set.add_predecl(predeclare(Signature::build("foo"))), None);
    assert_eq!(working_set.find_decl(b"foo"), Some(0));
    assert_eq!(working_set.merge_predecl(b"foo"), Some(0));
    assert_eq!(working_set.find_decl(b"foo"), Some(0));
    assert_eq!(working_set.merge_predecl(b"foo"), None);
    assert_eq!(working_set.find_decl(b"foo"), Some(0));
    assert_eq!(working_set.merge_predecl(b"bar"), None);
}

#[test]
fn a_name_is_reserved_in_the_innermost_frame() {
    let mut working_set = WorkingSet::new();
    assert_eq!(working_set.add_predecl(predeclare(Signature::build("foo"))), None);
    assert_eq!(working_set.add_predecl(predeclare(Signature::build("foo"))), Some(0));
    working_set.enter_scope();
    // An inner scope may reserve the name again.
    assert_eq!(working_set.add_predecl(predeclare(Signature::build("foo"))), None);
    assert_eq!(working_set.find_decl(b"foo"), Some(2));
    // It sees what the scopes around it have reserved.
    assert_eq!(working_set.add_predecl(predeclare(Signature::build("bar"))), None);
    working_set.exit_scope();
    assert_eq!(working_set.find_decl(b"foo"), Some(1));
    assert_eq!(working_set.find_decl(b"bar"), None);
    // To merge in an inner scope does not touch the reservation further out.
    working_set.enter_scope();
    assert_eq!(working_set.merge_predecl(b"foo"), None);
    working_set.exit_scope();
    assert_eq!(working_set.merge_predecl(b"foo"), Some(1));
}

#[test]
fn a_definition_takes_the_place_of_its_reservation() {
    let mut working_set = WorkingSet::new();
    working_set.add_predecl(predeclare(Signature::build("foo")));
    let id = working_set.find_decl(b"foo").unwrap();
    assert!(matches!(working_set.get_decl(id), Some(Decl::Predecl { .. })));
    assert!(working_set.replace_decl(id, into_block_command(Signature::build("foo"), 4)));
    assert_eq!(working_set.find_decl(b"foo"), Some(id));
    assert_eq!(
        working_set.get_decl(id),
        Some(&Decl::Block { signature: Signature::build("foo"), block_id: 4 })
    );
    assert!(!working_set.replace_decl(9, builtin("x")));
    assert_eq!(working_set.num_decls(), 1);
}

#[test]
fn a_hidden_name_stands_for_nothing_until_it_is_brought_back() {
    let mut working_set = WorkingSet::new();
    let foo = working_set.add_decl(builtin("foo"));
    let bar = working_set.add_decl(builtin("bar"));
    working_set.hide_decls(&vec![(b"foo".to_vec(), foo)]);
    assert_eq!(working_set.find_decl(b"foo"), None);
    assert_eq!(working_set.find_decl(b"bar"), Some(bar));
    assert_eq!(working_set.get_decl(foo), Some(&builtin("foo")));
    working_set.use_decls(vec![(b"foo".to_vec(), foo)]);
    assert_eq!(working_set.find_decl(b"foo"), Some(foo));
}

#[test]
fn hiding_goes_by_the_name() {
    let mut working_set = WorkingSet::new();
    let foo = working_set.add_decl(builtin("foo"));
    working_set.use_decls(vec![(b"spam foo".to_vec(), foo)]);
    working_set.hide_decls(&vec![(b"foo".to_vec(), foo)]);
    // The command is still known under its other name.
    assert_eq!(working_set.find_decl(b"foo"), None);
    assert_eq!(working_set.find_decl(b"spam foo"), Some(foo));
}

#[test]
fn a_name_hidden_further_in_is_hidden_further_out() {
    let mut working_set = WorkingSet::new();
    let foo = working_set.add_decl(builtin("foo"));
    working_set.enter_scope();
    working_set.enter_scope();
    working_set.hide_decls(&vec![(b"foo".to_vec(), foo)]);
    assert_eq!(working_set.find_decl(b"foo"), None);
    working_set.exit_scope();
    assert_eq!(working_set.find_decl(b"foo"), Some(foo));
    working_set.hide_decls(&vec![(b"foo".to_vec(), foo)]);
    working_set.enter_scope();
    assert_eq!(working_set.find_decl(b"foo"), None);
    // A definition further in is not hidden by a scope further out.
    let inner = working_set.add_decl(builtin("foo"));
    assert_eq!(working_set.find_decl(b"foo"), Some(inner));
}

#[test]
fn a_definition_brings_a_hidden_name_back() {
    let mut working_set = WorkingSet::new();
    let old = working_set.add_decl(builtin("foo"));
    working_set.hide_decls(&vec![(b"foo".to_vec(), old)]);
    working_set.add_predecl(predeclare(Signature::build("foo")));
    // The reservation is seen though the name is hidden.
    assert_eq!(working_set.find_decl(b"foo"), Some(1));
    assert_eq!(working_set.merge_predecl(b"foo"), Some(1));
    assert_eq!(working_set.find_decl(b"foo"), Some(1));
}

#[test]
fn use_then_hide_leaves_the_names_as_they_were() {
    let mut working_set = WorkingSet::new();
    let a = working_set.add_decl(builtin("a"));
    let b = working_set.add_decl(builtin("b"));
    let list = vec![(b"m a".to_vec(), a), (b"m b".to_vec(), b)];
    let names: [&[u8]; 5] = [b"a", b"b", b"m a", b"m b", b"c"];
    let before: Vec<_> = names.iter().map(|name| working_set.find_decl(name)).collect();
    working_set.use_decls(list.clone());
    assert_eq!(working_set.find_decl(b"m a"), Some(a));
    working_set.hide_decls(&list);
    let after: Vec<_> = names.iter().map(|name| working_set.find_decl(name)).collect();
    assert_eq!(after, before);
}

#[test]
fn overlays_are_found_under_their_names() {
    let mut working_set = WorkingSet::new();
    let mut overlay = Overlay::new();
    overlay.add_decl(b"a", 3);
    assert_eq!(working_set.add_overlay(b"m", overlay.clone()), 0);
    assert_eq!(working_set.find_overlay(b"m"), Some(0));
    assert_eq!(working_set.get_overlay(0), Some(&overlay));
    working_set.enter_scope();
    assert_eq!(working_set.add_overlay(b"m", Overlay::new()), 1);
    assert_eq!(working_set.find_overlay(b"m"), Some(1));
    working_set.exit_scope();
    assert_eq!(working_set.find_overlay(b"m"), Some(0));
    assert_eq!(working_set.num_overlays(), 2);
    assert_eq!(working_set.get_overlay(1), Some(&Overlay::new()));
}

#[test]
fn blocks_get_the_next_number() {
    let mut working_set = WorkingSet::new();
    let block = || Block { signature: Signature::build(""), statements: vec![], captures: vec![] };
    assert_eq!(working_set.add_block(block()), 0);
    assert_eq!(working_set.add_block(block()), 1);
    assert_eq!(working_set.num_blocks(), 2);
    assert_eq!(working_set.get_block(1), Some(&block()));
    assert_eq!(working_set.get_block(2), None);
}

#[test]
fn aliases_live_in_their_scope() {
    let mut working_set = WorkingSet::new();
    working_set.add_alias(b"ll".to_vec(), vec![at(1, 2), at(3, 4)]);
    assert_eq!(working_set.find_alias(b"ll"), Some(&vec![at(1, 2), at(3, 4)]));
    working_set.enter_scope();
    working_set.add_alias(b"ll".to_vec(), vec![at(5, 6)]);
    working_set.add_alias(b"la".to_vec(), vec![]);
    assert_eq!(working_set.find_alias(b"ll"), Some(&vec![at(5, 6)]));
    assert_eq!(working_set.find_alias(b"la"), Some(&vec![]));
    working_set.exit_scope();
    assert_eq!(working_set.find_alias(b"ll"), Some(&vec![at(1, 2), at(3, 4)]));
    assert_eq!(working_set.find_alias(b"la"), None);
}

#[test]
fn variables_have_a_type_that_can_be_set() {
    let mut working_set = WorkingSet::new();
    assert_eq!(working_set.add_variable(b"$x".to_vec(), Type::Unknown), 0);
    assert_eq!(working_set.add_variable(b"$y".to_vec(), Type::List(Box::new(Type::Int))), 1);
    assert_eq!(working_set.find_variable(b"$y"), Some(1));
    assert_eq!(working_set.get_variable_type(1), Some(&Type::List(Box::new(Type::Int))));
    working_set.set_variable_type(0, Type::String);
    assert_eq!(working_set.get_variable_type(0), Some(&Type::String));
    working_set.set_variable_type(5, Type::Bool);
    assert_eq!(working_set.get_variable_type(5), None);
    working_set.enter_scope();
    assert_eq!(working_set.add_variable(b"$x".to_vec(), Type::Int), 2);
    assert_eq!(working_set.find_variable(b"$x"), Some(2));
    working_set.exit_scope();
    assert_eq!(working_set.find_variable(b"$x"), Some(0));
    // The variable of the scope that was left keeps its id and its type.
    assert_eq!(working_set.get_variable_type(2), Some(&Type::Int));
}

#[test]
fn types_copy_to_themselves() {
    for ty in [Type::Unknown, Type::Int, Type::List(Box::new(Type::List(Box::new(Type::String))))] {
        assert_eq!(ty.copy(), ty);
        assert_eq!(ty.clone(), ty);
    }
}

#[test]
fn the_plugin_list_is_marked_once_and_for_all() {
    let mut working_set = WorkingSet::new();
    working_set.mark_plugins_file_dirty();
    assert!(working_set.plugins_file_dirty());
    working_set.mark_plugins_file_dirty();
    assert!(working_set.plugins_file_dirty());
}

#[test]
fn signatures_hand_out_their_parameters_by_position() {
    let signature = Signature::build("cmd")
        .required("a", SyntaxShape::Int, "first")
        .required("b", SyntaxShape::String, "second")
        .rest("more", SyntaxShape::Any, "all the others");
    assert_eq!(signature.get_positional(0).map(|arg| arg.name.as_str()), Some("a"));
    assert_eq!(signature.get_positional(1).map(|arg| arg.name.as_str()), Some("b"));
    assert_eq!(signature.get_positional(2).map(|arg| arg.name.as_str()), Some("more"));
    assert_eq!(signature.get_positional(9).map(|arg| arg.name.as_str()), Some("more"));
    assert_eq!(Signature::build("cmd").get_positional(0), None);
    assert_eq!(signature.copy(), signature);
}
