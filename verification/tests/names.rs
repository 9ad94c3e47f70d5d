use axotyped::names::{
    default_name_from_handler, handler_name_from_type_name, snake_to_camel, strip_module_paths,
    type_string,
};

// -- strip_module_paths --

#[test]
fn strip_simple_type() {
    assert_eq!(
        strip_module_paths("myapp::types::UserResponse"),
        "UserResponse"
    );
}

#[test]
fn strip_vec_generic() {
    assert_eq!(
        strip_module_paths("alloc::vec::Vec<myapp::types::UserResponse>"),
        "Vec<UserResponse>"
    );
}

#[test]
fn strip_option_generic() {
    assert_eq!(
        strip_module_paths("core::option::Option<myapp::types::UserResponse>"),
        "Option<UserResponse>"
    );
}

#[test]
fn strip_plain_type() {
    assert_eq!(strip_module_paths("String"), "String");
}

#[test]
fn strip_nested_generic() {
    assert_eq!(
        strip_module_paths("alloc::vec::Vec<core::option::Option<myapp::Foo>>"),
        "Vec<Option<Foo>>"
    );
}

#[test]
fn strip_keeps_every_delimiter() {
    assert_eq!(
        strip_module_paths("std::collections::HashMap<alloc::string::String, a::b::C>"),
        "HashMap<String, C>"
    );
}

#[test]
fn strip_empty_text() {
    assert_eq!(strip_module_paths(""), "");
}

#[test]
fn strip_takes_colons_in_pairs_from_the_left() {
    assert_eq!(strip_module_paths("a:::b"), ":b");
    assert_eq!(strip_module_paths("a::::b"), "b");
    assert_eq!(strip_module_paths("a:b"), "a:b");
    assert_eq!(strip_module_paths("a::"), "");
    assert_eq!(strip_module_paths("a:"), "a:");
}

#[test]
fn strip_keeps_other_characters() {
    assert_eq!(strip_module_paths("m\u{f6}dul::Gr\u{f6}\u{df}e<x::\u{e9}>"), "Gr\u{f6}\u{df}e<\u{e9}>");
}

#[test]
fn strip_twice_is_strip_once() {
    let once = strip_module_paths("a::B<c::D, e:::F> g::H");
    assert_eq!(once, "B<D, :F> H");
    assert_eq!(strip_module_paths(&once), once);
}

// -- type_string --

#[test]
fn type_string_for_vec() {
    assert_eq!(type_string("alloc::vec::Vec<alloc::string::String>"), "Vec<String>");
}

#[test]
fn type_string_for_option() {
    assert_eq!(type_string("core::option::Option<alloc::string::String>"), "Option<String>");
}

#[test]
fn type_string_for_plain() {
    assert_eq!(type_string("alloc::string::String"), "String");
}

// -- snake_to_camel --

#[test]
fn camel_simple() {
    assert_eq!(snake_to_camel("register"), "register");
}

#[test]
fn camel_two_words() {
    assert_eq!(snake_to_camel("forgot_password"), "forgotPassword");
}

#[test]
fn camel_three_words() {
    assert_eq!(snake_to_camel("list_all_users"), "listAllUsers");
}

#[test]
fn camel_already_camel() {
    assert_eq!(snake_to_camel("listUsers"), "listUsers");
}

#[test]
fn camel_stray_underscores() {
    assert_eq!(snake_to_camel("_private__name_"), "PrivateName");
    assert_eq!(snake_to_camel("___"), "");
    assert_eq!(snake_to_camel(""), "");
}

#[test]
fn camel_changes_ascii_letters_only() {
    assert_eq!(snake_to_camel("a_1b_\u{e9}t\u{e9}_Zz_z"), "a1b\u{e9}t\u{e9}ZzZ");
}

#[test]
fn camel_twice_is_camel_once() {
    let once = snake_to_camel("get__all_items_");
    assert_eq!(once, "getAllItems");
    assert_eq!(snake_to_camel(&once), once);
}

// -- handler_name_from_type_name --

#[test]
fn handler_name_simple() {
    assert_eq!(
        handler_name_from_type_name("myapp::plugins::email_password::register"),
        "register"
    );
}

#[test]
fn handler_name_nested() {
    assert_eq!(
        handler_name_from_type_name("myapp::handlers::admin::list_users"),
        "list_users"
    );
}

#[test]
fn handler_name_closure() {
    assert_eq!(
        handler_name_from_type_name("myapp::routes::handler::{{closure}}"),
        "handler"
    );
}

#[test]
fn handler_name_several_closures() {
    assert_eq!(
        handler_name_from_type_name("myapp::handler::{{closure}}::{{closure}}"),
        "handler"
    );
    assert_eq!(handler_name_from_type_name("{{closure}}"), "{{closure}}");
    assert_eq!(
        handler_name_from_type_name("{{a}}::{{b}}"),
        "{{a}}::{{b}}"
    );
}

#[test]
fn handler_name_edges() {
    assert_eq!(handler_name_from_type_name(""), "");
    assert_eq!(handler_name_from_type_name("plain"), "plain");
    assert_eq!(handler_name_from_type_name("a::"), "");
    assert_eq!(handler_name_from_type_name("a:::b"), "b");
    assert_eq!(handler_name_from_type_name("a:::{b}"), "a:");
    assert_eq!(handler_name_from_type_name("x::\u{fc}ber"), "\u{fc}ber");
}

// -- default_name_from_handler --

#[test]
fn default_name_list_users() {
    let name = default_name_from_handler("fn()");
    assert!(!name.is_empty());
}

#[test]
fn default_name_via_snake_to_camel() {
    let raw = handler_name_from_type_name("myapp::handlers::list_users");
    let name = snake_to_camel(raw);
    assert_eq!(name, "listUsers");
}

#[test]
fn default_name_no_underscore() {
    let raw = handler_name_from_type_name("myapp::handlers::register");
    let name = snake_to_camel(raw);
    assert_eq!(name, "register");
}

#[test]
fn default_name_of_a_handler() {
    assert_eq!(
        default_name_from_handler("myapp::handlers::forgot_password::{{closure}}"),
        "forgotPassword"
    );
}

// -- brackets and references --

#[test]
fn strip_tuple() {
    assert_eq!(strip_module_paths("(alloc::string::String, i32)"), "(String, i32)");
    assert_eq!(strip_module_paths("(a::B,)"), "(B,)");
    assert_eq!(strip_module_paths("((a::B, c::D), ())"), "((B, D), ())");
}

#[test]
fn strip_slice_and_array() {
    assert_eq!(strip_module_paths("[a::B]"), "[B]");
    assert_eq!(strip_module_paths("[a::b::C; 3]"), "[C; 3]");
}

#[test]
fn strip_reference() {
    assert_eq!(strip_module_paths("&a::B"), "&B");
    assert_eq!(strip_module_paths("&mut [a::B]"), "&mut [B]");
    assert_eq!(strip_module_paths("&&a::B"), "&&B");
}

#[test]
fn strip_function_type() {
    assert_eq!(strip_module_paths("fn(a::B, &c::D) -> e::F"), "fn(B, &D) -> F");
    assert_eq!(
        strip_module_paths("alloc::boxed::Box<dyn core::ops::Fn(a::B) -> c::D>"),
        "Box<dyn Fn(B) -> D>"
    );
}

#[test]
fn strip_piece_by_piece() {
    for delimiter in ["<", ">", ",", " ", "(", "[", "&"] {
        let whole = strip_module_paths(&format!("a::B{delimiter}c::D"));
        assert_eq!(whole, format!("B{delimiter}D"));
    }
}

#[test]
fn containers_are_named_around_their_argument() {
    for name in ["a::B", "(a::B, c::D)", "alloc::vec::Vec<a::B>", "u8"] {
        let inner = type_string(name);
        assert_eq!(type_string(&format!("alloc::vec::Vec<{name}>")), format!("Vec<{inner}>"));
        assert_eq!(
            type_string(&format!("core::option::Option<{name}>")),
            format!("Option<{inner}>")
        );
    }
}

#[test]
fn camel_changes_case_only() {
    for name in ["list_all_users", "__x__y_", "a_\u{e9}t\u{e9}_2b", "", "_", "alreadyCamel"] {
        let camel = snake_to_camel(name);
        let plain: String = name.chars().filter(|ch| *ch != '_').collect();
        assert_eq!(camel.to_ascii_lowercase(), plain.to_ascii_lowercase());
    }
    assert_eq!(snake_to_camel("a_\u{e9}t\u{e9}_2b"), "a\u{e9}t\u{e9}2b");
}
