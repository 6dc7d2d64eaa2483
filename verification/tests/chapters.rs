use rust_practice::{
    async_await, basic_types, collection_types, comments_and_docs, crate_and_module, errors,
    fighting_with_compiler, flow_control, formatted_output, functional_programming,
    generics_and_traits, global_variables, lifetime, macro_todo, method_and_associated_function,
    newtype_and_dst, ownership_and_borrowing, pattern_match, result_and_panic, self_referential,
    smart_pointers, standard_library, tests, threads, type_conversion, unsafe_doing,
    weak_and_circle_reference,
};

#[test]
fn chapters_with_sections_of_their_own_return() {
    basic_types();
    ownership_and_borrowing();
}

#[test]
fn chapters_without_examples_return() {
    flow_control();
    pattern_match();
    method_and_associated_function();
    generics_and_traits();
    collection_types();
    type_conversion();
    result_and_panic();
    crate_and_module();
    comments_and_docs();
    formatted_output();
    lifetime();
    functional_programming();
    newtype_and_dst();
    smart_pointers();
    weak_and_circle_reference();
    self_referential();
    threads();
    global_variables();
    errors();
    unsafe_doing();
    macro_todo();
    tests();
    async_await();
    standard_library();
    fighting_with_compiler();
}
