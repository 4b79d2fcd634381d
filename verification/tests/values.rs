use reflect_list::{
    list_debug, list_hash, list_partial_eq, list_try_apply, ApplyError, DynamicList, FromReflect,
    List, Opaque, Reflect, ReflectKind, TypeId, Value,
};

fn ints(values: &[i32]) -> DynamicList {
    let mut list = DynamicList::new();
    for v in values {
        list.push(*v);
    }
    list
}

fn opaque(id: u64, token: u64) -> Value {
    Value::Opaque(Opaque { type_id: TypeId { id }, token })
}

#[test]
fn partial_eq_true_when_all_pairs_are() {
    assert_eq!(list_partial_eq(&ints(&[1, 2, 3]), &Value::List(ints(&[1, 2, 3]))), Some(true));
    assert_eq!(list_partial_eq(&ints(&[]), &Value::List(ints(&[]))), Some(true));
}

#[test]
fn partial_eq_false_on_other_length() {
    assert_eq!(list_partial_eq(&ints(&[1, 2]), &Value::List(ints(&[1, 2, 3]))), Some(false));
    assert_eq!(list_partial_eq(&ints(&[1, 2, 3]), &Value::List(ints(&[1, 2]))), Some(false));
}

#[test]
fn partial_eq_false_on_other_element() {
    assert_eq!(list_partial_eq(&ints(&[1, 2, 3]), &Value::List(ints(&[1, 5, 3]))), Some(false));
}

#[test]
fn partial_eq_false_on_a_value_that_is_no_list() {
    assert_eq!(list_partial_eq(&ints(&[1]), &Value::I32(1)), Some(false));
    assert_eq!(list_partial_eq(&ints(&[]), &Value::Unit), Some(false));
}

#[test]
fn partial_eq_undecidable_on_opaque_element() {
    let mut a = ints(&[1]);
    a.push_box(opaque(77, 1));
    let mut b = ints(&[1]);
    b.push_box(opaque(77, 1));
    assert_eq!(list_partial_eq(&a, &Value::List(b)), None);
}

#[test]
fn partial_eq_stops_at_the_first_pair_that_is_not_true() {
    let mut a = ints(&[1]);
    a.push_box(opaque(77, 1));
    let mut b = ints(&[2]);
    b.push_box(opaque(77, 1));
    assert_eq!(list_partial_eq(&a, &Value::List(b)), Some(false));

    let mut c = DynamicList::new();
    c.push_box(opaque(77, 1));
    c.push(1i32);
    let mut d = DynamicList::new();
    d.push_box(opaque(77, 1));
    d.push(2i32);
    assert_eq!(list_partial_eq(&c, &Value::List(d)), None);
}

#[test]
fn scalars_compare_by_type_and_content() {
    assert_eq!(Value::U32(1).reflect_partial_eq(&Value::U32(1)), Some(true));
    assert_eq!(Value::U32(1).reflect_partial_eq(&Value::U32(2)), Some(false));
    assert_eq!(Value::U32(1).reflect_partial_eq(&Value::U64(1)), Some(false));
    assert_eq!(Value::Unit.reflect_partial_eq(&Value::Unit), Some(true));
    assert_eq!(Value::Bool(true).reflect_partial_eq(&Value::Bool(false)), Some(false));
    assert_eq!(
        Value::Str(String::from("a")).reflect_partial_eq(&Value::Str(String::from("a"))),
        Some(true)
    );
    assert_eq!(
        Value::Str(String::from("a")).reflect_partial_eq(&Value::Str(String::from("b"))),
        Some(false)
    );
    assert_eq!(Value::I64(-1).reflect_partial_eq(&opaque(1, 1)), Some(false));
    assert_eq!(opaque(1, 1).reflect_partial_eq(&opaque(1, 1)), None);
    assert_eq!(opaque(1, 1).reflect_partial_eq(&Value::Unit), None);
}

#[test]
fn hash_of_scalars() {
    assert_eq!(Value::Unit.reflect_hash(), Some(12638152016183539244));
    assert_eq!(Value::Bool(true).reflect_hash(), Some(592596118541513868));
    assert_eq!(Value::U32(7).reflect_hash(), Some(591643941471672367));
    assert_eq!(Value::U64(7).reflect_hash(), Some(586858866866644220));
    assert_eq!(Value::Usize(7).reflect_hash(), Some(585908888820059141));
    assert_eq!(Value::I32(-1).reflect_hash(), Some(14408904273662070584));
    assert_eq!(Value::I32(1).reflect_hash(), Some(14409859749266796718));
    assert_eq!(Value::I64(i64::MIN).reflect_hash(), Some(13883462850537973614));
    assert_eq!(Value::Str(String::from("hi")).reflect_hash(), Some(4260361001900724804));
    assert_eq!(Value::Str(String::new()).reflect_hash(), Some(598336668751268149));
}

#[test]
fn hash_step() {
    assert_eq!(reflect_list::hash::mix_word(0, 0), 0);
    assert_eq!(reflect_list::hash::mix_word(1, 0), 1099511628211);
    assert_eq!(
        reflect_list::hash::mix_word(0xcbf2_9ce4_8422_2325, 1),
        12638152016183539244
    );
    assert_eq!(reflect_list::hash::mix_signed_word(7, -1), reflect_list::hash::mix_word(
        reflect_list::hash::mix_word(7, 1),
        0
    ));
    assert_eq!(reflect_list::hash::mix_str(5, ""), reflect_list::hash::mix_word(5, 0));
}

#[test]
fn hash_of_lists() {
    assert_eq!(list_hash(&DynamicList::new()), Some(597380093634913804));
    assert_eq!(list_hash(&ints(&[1, 2])), Some(13559389187176532445));
    assert_eq!(ints(&[1, 2]).reflect_hash(), Some(13559389187176532445));
    assert_eq!(Value::List(ints(&[1, 2])).reflect_hash(), Some(13559389187176532445));
    let mut inner = DynamicList::new();
    inner.push(7u32);
    let mut outer = DynamicList::new();
    outer.push(inner);
    assert_eq!(list_hash(&outer), Some(7995889378480417661));
    assert_ne!(list_hash(&ints(&[1, 2])), list_hash(&ints(&[2, 1])));
}

#[test]
fn hash_is_absent_when_an_element_has_none() {
    let mut list = ints(&[1]);
    list.push_box(opaque(5, 5));
    list.push(2i32);
    assert_eq!(list_hash(&list), None);
    assert_eq!(opaque(5, 5).reflect_hash(), None);
    let mut outer = DynamicList::new();
    outer.push(list);
    assert_eq!(list_hash(&outer), None);
}

#[test]
fn debug_of_values() {
    assert_eq!(Value::Unit.debug(), "()");
    assert_eq!(Value::Bool(true).debug(), "true");
    assert_eq!(Value::Bool(false).debug(), "false");
    assert_eq!(Value::U32(0).debug(), "0");
    assert_eq!(Value::U32(u32::MAX).debug(), "4294967295");
    assert_eq!(Value::U64(u64::MAX).debug(), "18446744073709551615");
    assert_eq!(Value::Usize(10).debug(), "10");
    assert_eq!(Value::I32(-7).debug(), "-7");
    assert_eq!(Value::I32(i32::MIN).debug(), "-2147483648");
    assert_eq!(Value::I64(i64::MIN).debug(), "-9223372036854775808");
    assert_eq!(Value::I64(i64::MAX).debug(), "9223372036854775807");
    assert_eq!(Value::Str(String::from("hi")).debug(), "\"hi\"");
    assert_eq!(opaque(42, 0).debug(), "Opaque(42)");
}

#[test]
fn debug_of_lists() {
    assert_eq!(list_debug(&DynamicList::new()), "[]");
    assert_eq!(list_debug(&ints(&[1])), "[1]");
    assert_eq!(list_debug(&ints(&[1, 2, 3])), "[1, 2, 3]");
    assert_eq!(ints(&[1, 2, 3]).debug(), "DynamicList([1, 2, 3])");
    let mut outer = ints(&[-1]);
    outer.push(ints(&[]));
    outer.push(());
    assert_eq!(list_debug(&outer), "[-1, DynamicList([]), ()]");
    assert_eq!(Value::List(outer).debug(), "DynamicList([-1, DynamicList([]), ()])");
}

#[test]
fn decimal_text() {
    let mut out = String::from(">");
    reflect_list::render::push_nat(&mut out, 1203);
    reflect_list::render::push_int(&mut out, -45);
    reflect_list::render::push_int(&mut out, 0);
    assert_eq!(out, ">1203-450");
    assert_eq!(reflect_list::render::digit_str(9), "9");
}

#[test]
fn try_apply_refuses_a_value_that_is_no_list() {
    let mut a = ints(&[1, 2]);
    assert_eq!(
        list_try_apply(&mut a, &Value::U32(3)),
        Err(ApplyError::MismatchedKinds {
            from_kind: ReflectKind::Value,
            to_kind: ReflectKind::List
        })
    );
    assert_eq!(a.debug(), "DynamicList([1, 2])");
}

#[test]
fn try_apply_stops_at_the_first_element_that_fails() {
    let mut a = ints(&[1, 2, 3]);
    let mut b = ints(&[10]);
    b.push(20u32);
    b.push(30i32);
    assert_eq!(
        a.try_apply(&Value::List(b)),
        Err(ApplyError::MismatchedTypes {
            from_type: TypeId { id: reflect_list::info::U32_ID },
            to_type: TypeId { id: reflect_list::info::I32_ID }
        })
    );
    assert_eq!(a.debug(), "DynamicList([10, 2, 3])");
}

#[test]
fn try_apply_goes_into_nested_lists() {
    let mut a = DynamicList::new();
    a.push(ints(&[1, 2]));
    let mut b = DynamicList::new();
    b.push(ints(&[5, 6, 7]));
    b.push(String::from("tail"));
    assert_eq!(a.try_apply(&Value::List(b)), Ok(()));
    assert_eq!(a.debug(), "DynamicList([DynamicList([5, 6, 7]), \"tail\"])");
}

#[test]
fn scalars_take_a_value_of_their_own_type() {
    let mut v = Value::U64(1);
    assert_eq!(v.try_apply(&Value::U64(9)), Ok(()));
    assert_eq!(v.debug(), "9");
    assert_eq!(
        v.try_apply(&Value::Unit),
        Err(ApplyError::MismatchedTypes {
            from_type: TypeId { id: reflect_list::info::UNIT_ID },
            to_type: TypeId { id: reflect_list::info::U64_ID }
        })
    );
    assert_eq!(v.debug(), "9");
    let mut o = opaque(3, 1);
    o.apply(&opaque(3, 2));
    assert!(matches!(o, Value::Opaque(Opaque { token: 2, .. })));
    assert!(o.try_apply(&opaque(4, 2)).is_err());
    let mut s = Value::Str(String::from("a"));
    s.apply(&Value::Str(String::from("b")));
    assert_eq!(s.debug(), "\"b\"");
}

#[test]
fn list_takes_a_list_as_a_value() {
    let mut v = Value::List(ints(&[1]));
    assert_eq!(v.try_apply(&Value::List(ints(&[2, 3]))), Ok(()));
    assert_eq!(v.debug(), "DynamicList([2, 3])");
    assert_eq!(
        v.try_apply(&Value::Bool(true)),
        Err(ApplyError::MismatchedKinds {
            from_kind: ReflectKind::Value,
            to_kind: ReflectKind::List
        })
    );
}

#[test]
fn kinds_and_types() {
    assert_eq!(Value::Unit.reflect_kind(), ReflectKind::Value);
    assert_eq!(Value::List(ints(&[])).reflect_kind(), ReflectKind::List);
    assert_eq!(ints(&[]).reflect_kind(), ReflectKind::List);
    assert_eq!(Value::U32(1).type_id(), TypeId { id: reflect_list::info::U32_ID });
    assert_eq!(opaque(99, 0).type_id(), TypeId { id: 99 });
    assert_eq!(
        Value::List(ints(&[])).type_id(),
        TypeId { id: reflect_list::info::DYNAMIC_LIST_ID }
    );
    assert!(Value::U32(1).same_type(&Value::U32(2)));
    assert!(!Value::U32(1).same_type(&Value::I32(2)));
    assert!(!opaque(1, 0).same_type(&opaque(2, 0)));
    assert!(ints(&[]).is_dynamic());
    assert_eq!(Value::U32(1).reflect_type_path(), "u32");
    assert_eq!(Value::Str(String::new()).reflect_type_path(), "alloc::string::String");
    assert_eq!(Value::List(ints(&[])).reflect_type_path(), "reflect_list::DynamicList");
    assert_eq!(opaque(1, 1).reflect_type_path(), "opaque");
}

#[test]
fn take_gives_the_typed_value_or_the_value_back() {
    assert_eq!(Value::Usize(3).take::<usize>().unwrap(), 3);
    assert_eq!(Value::Bool(true).take::<bool>().unwrap(), true);
    assert_eq!(Value::Unit.take::<()>().unwrap(), ());
    assert_eq!(Value::Str(String::from("x")).take::<String>().unwrap(), "x");
    let back = Value::U32(3).take::<u64>().unwrap_err();
    assert_eq!(back.debug(), "3");
    assert_eq!(back.type_id(), TypeId { id: reflect_list::info::U32_ID });
    let list = Value::List(ints(&[1])).take::<DynamicList>().unwrap();
    assert_eq!(list.len(), 1);
    assert!(Value::Unit.take::<DynamicList>().is_err());
}

#[test]
fn typed_values_are_erased_and_rebuilt() {
    assert_eq!(5u32.into_value().debug(), "5");
    assert_eq!((-5i64).into_value().debug(), "-5");
    assert_eq!(String::from("s").into_value().debug(), "\"s\"");
    assert_eq!(u32::from_reflect(&Value::U32(8)), Some(8));
    assert_eq!(u32::from_reflect(&Value::U64(8)), None);
    assert_eq!(String::from_reflect(&Value::Str(String::from("k"))), Some(String::from("k")));
    assert_eq!(<()>::from_reflect(&Value::Unit), Some(()));
    assert_eq!(bool::from_reflect(&Value::Unit), None);
    assert_eq!(i32::from_reflect(&Value::I32(-3)), Some(-3));
    assert_eq!(i64::from_reflect(&Value::I32(-3)), None);
    assert_eq!(usize::from_reflect(&Value::Usize(3)), Some(3));
    assert_eq!(u64::from_reflect(&Value::Usize(3)), None);
}

#[test]
fn set_replaces_the_list_or_gives_the_value_back() {
    let mut list = ints(&[1]);
    assert!(list.set(Value::List(ints(&[4, 5]))).is_ok());
    assert_eq!(list.debug(), "DynamicList([4, 5])");
    let back = list.set(Value::U32(1)).unwrap_err();
    assert_eq!(back.debug(), "1");
    assert_eq!(list.debug(), "DynamicList([4, 5])");
}

#[test]
fn clone_value_is_equal_to_the_value() {
    let v = Value::List(ints(&[1, 2]));
    assert_eq!(v.clone_value().reflect_partial_eq(&v), Some(true));
    assert_eq!(ints(&[1, 2]).clone_value().reflect_partial_eq(&v), Some(true));
    assert_eq!(Value::Str(String::from("q")).clone_value().debug(), "\"q\"");
    assert_eq!(opaque(9, 4).clone_value().type_id(), TypeId { id: 9 });
}

#[test]
fn as_list_is_some_for_lists_alone() {
    assert!(Value::List(ints(&[])).as_list().is_some());
    assert!(Value::Unit.as_list().is_none());
    let mut v = Value::List(ints(&[1]));
    v.as_list_mut().unwrap().push(2i32);
    assert_eq!(v.debug(), "DynamicList([1, 2])");
    assert!(Value::Unit.as_list_mut().is_none());
}
