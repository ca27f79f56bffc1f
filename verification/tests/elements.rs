use parser_combinators::Element;
use std::collections::HashMap;

fn leaf(name: &str) -> Element {
    Element { name: name.to_string(), attr: HashMap::new(), children: Vec::new() }
}

#[test]
fn element_clone_equals_the_element() {
    let mut attr = HashMap::new();
    attr.insert("id".to_string(), "top".to_string());
    attr.insert("class".to_string(), "wide".to_string());
    let mut inner = leaf("inner");
    inner.children.push(leaf("innermost"));
    let element = Element { name: "outer".to_string(), attr, children: vec![leaf("first"), inner] };
    let copy = element.clone();
    assert_eq!(element, copy);
    assert_eq!("outer", copy.name);
    assert_eq!(Some(&"top".to_string()), copy.attr.get("id"));
    assert_eq!(2, copy.children.len());
    assert_eq!("first", copy.children[0].name);
    assert_eq!("innermost", copy.children[1].children[0].name);
}

#[test]
fn elements_differ_by_name_attributes_and_children() {
    let plain = leaf("a");
    assert_eq!(plain, leaf("a"));
    assert_ne!(plain, leaf("b"));
    let mut with_attr = leaf("a");
    with_attr.attr.insert("k".to_string(), "v".to_string());
    assert_ne!(plain, with_attr);
    let mut with_child = leaf("a");
    with_child.children.push(leaf("c"));
    assert_ne!(plain, with_child);
}

#[test]
fn element_keeps_one_value_for_each_key() {
    let mut element = leaf("a");
    element.attr.insert("k".to_string(), "first".to_string());
    element.attr.insert("k".to_string(), "second".to_string());
    assert_eq!(1, element.attr.len());
    assert_eq!(Some(&"second".to_string()), element.attr.get("k"));
}
