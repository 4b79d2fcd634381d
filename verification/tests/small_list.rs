use reflect_list::small_list::convert;
use reflect_list::{
    list_hash, list_partial_eq, list_try_apply, DynamicList, List, ListInfo, Opaque, ReflectKind,
    SmallList, TypeId, TypeInfo, Value,
};

fn small(values: &[u32]) -> SmallList<u32> {
    let mut list = SmallList::new();
    for v in values {
        list.push(Value::U32(*v));
    }
    list
}

fn dynamic(values: &[u32]) -> DynamicList {
    let mut list = DynamicList::new();
    for v in values {
        list.push(*v);
    }
    list
}

fn contents(list: SmallList<u32>) -> Vec<u32> {
    list.drain().into_iter().map(|v| v.take::<u32>().unwrap()).collect()
}

#[test]
fn new_list_is_empty() {
    let list = SmallList::<u32>::new();
    assert_eq!(list.len(), 0);
    assert!(list.is_empty());
    assert!(list.get(0).is_none());
    assert!(contents(list).is_empty());
}

#[test]
fn push_and_get() {
    let list = small(&[4, 5, 6]);
    assert_eq!(list.len(), 3);
    assert_eq!(list.get(0).unwrap().debug(), "4");
    assert_eq!(list.get(2).unwrap().debug(), "6");
    assert!(list.get(3).is_none());
    assert_eq!(contents(list), vec![4, 5, 6]);
}

#[test]
fn grows_past_the_inline_storage() {
    let values: Vec<u32> = (0..100).collect();
    let list = small(&values);
    assert_eq!(list.len(), 100);
    assert_eq!(list.get(99).unwrap().debug(), "99");
    assert_eq!(contents(list), values);
}

#[test]
fn insert_shifts_to_the_back() {
    let mut list = small(&[1, 2, 3]);
    list.insert(0, Value::U32(0));
    list.insert(4, Value::U32(9));
    list.insert(2, Value::U32(7));
    assert_eq!(contents(list), vec![0, 1, 7, 2, 3, 9]);
}

#[test]
fn remove_shifts_to_the_front() {
    let mut list = small(&[1, 2, 3]);
    assert_eq!(list.remove(1).take::<u32>().unwrap(), 2);
    assert_eq!(list.len(), 2);
    assert_eq!(contents(list), vec![1, 3]);
}

#[test]
fn pop_takes_the_last() {
    let mut list = small(&[1, 2]);
    assert_eq!(list.pop().unwrap().take::<u32>().unwrap(), 2);
    assert_eq!(list.len(), 1);
    assert_eq!(list.pop().unwrap().take::<u32>().unwrap(), 1);
    assert!(list.pop().is_none());
    assert_eq!(list.len(), 0);
}

#[test]
fn get_mut_changes_in_place() {
    let mut list = small(&[1, 2, 3]);
    *list.get_mut(1).unwrap() = Value::U32(20);
    assert!(list.get_mut(3).is_none());
    assert_eq!(contents(list), vec![1, 20, 3]);
}

#[test]
fn drain_keeps_the_order() {
    let drained = small(&[9, 8, 7]).drain();
    assert_eq!(drained.len(), 3);
    assert_eq!(drained[0].debug(), "9");
    assert_eq!(drained[1].debug(), "8");
    assert_eq!(drained[2].debug(), "7");
}

#[test]
fn iterates_front_to_back() {
    let list = small(&[1, 2]);
    let mut iter = list.iter();
    assert_eq!(iter.next().unwrap().debug(), "1");
    assert_eq!(iter.next().unwrap().debug(), "2");
    assert!(iter.next().is_none());
    assert!(iter.next().is_none());
    assert_eq!(iter.index, 2);
}

#[test]
fn convert_takes_a_value_of_the_item_type() {
    let item = convert::<u32>(Value::U32(3)).unwrap();
    assert_eq!(item.debug(), "3");
    assert_eq!(item.type_id(), TypeId { id: reflect_list::info::U32_ID });
    let text = convert::<String>(Value::Str(String::from("t"))).unwrap();
    assert_eq!(text.debug(), "\"t\"");
}

#[test]
fn convert_hands_back_what_it_cannot_use() {
    let back = convert::<u32>(Value::U64(3)).unwrap_err();
    assert_eq!(back.type_id(), TypeId { id: reflect_list::info::U64_ID });
    assert_eq!(back.debug(), "3");
    let opaque = Value::Opaque(Opaque { type_id: TypeId { id: 50 }, token: 1 });
    assert!(convert::<u32>(opaque).is_err());
    assert!(convert::<u32>(Value::List(DynamicList::new())).is_err());
}

#[test]
fn from_reflect_builds_the_whole_list() {
    let source = Value::List(dynamic(&[1, 2, 3]));
    let built = SmallList::<u32>::from_reflect(&source).expect("every element is a u32");
    assert_eq!(built.len(), 3);
    assert_eq!(list_partial_eq(&built, &source), Some(true));
    assert_eq!(contents(built), vec![1, 2, 3]);
    let empty = SmallList::<u32>::from_reflect(&Value::List(DynamicList::new())).unwrap();
    assert_eq!(empty.len(), 0);
}

#[test]
fn from_reflect_of_a_long_list() {
    let values: Vec<u32> = (0..40).collect();
    let built = SmallList::<u32>::from_reflect(&Value::List(dynamic(&values))).unwrap();
    assert_eq!(contents(built), values);
}

#[test]
fn from_reflect_refuses_what_is_no_list() {
    assert!(SmallList::<u32>::from_reflect(&Value::U32(1)).is_none());
    assert!(SmallList::<u32>::from_reflect(&Value::Unit).is_none());
}

#[test]
fn from_reflect_gives_no_part_of_a_list() {
    let mut source = dynamic(&[1, 2]);
    source.push(3u64);
    source.push(4u32);
    assert!(SmallList::<u32>::from_reflect(&Value::List(source)).is_none());
    let mut first_bad = DynamicList::new();
    first_bad.push(String::from("x"));
    assert!(SmallList::<u32>::from_reflect(&Value::List(first_bad)).is_none());
}

#[test]
fn apply_onto_a_small_list() {
    let mut a = small(&[1, 2, 3]);
    let b = Value::List(dynamic(&[10, 20, 30, 40]));
    assert_eq!(list_try_apply(&mut a, &b), Ok(()));
    assert_eq!(contents(a), vec![10, 20, 30, 40]);
    let mut c = small(&[1, 2, 3]);
    c.apply(&Value::List(dynamic(&[7])));
    assert_eq!(contents(c), vec![7, 2, 3]);
    let mut d = small(&[1]);
    assert!(d.try_apply(&Value::U32(1)).is_err());
    assert_eq!(contents(d), vec![1]);
}

#[test]
fn compares_with_any_list() {
    let a = small(&[1, 2]);
    assert_eq!(a.reflect_partial_eq(&Value::List(dynamic(&[1, 2]))), Some(true));
    assert_eq!(a.reflect_partial_eq(&Value::List(dynamic(&[1, 3]))), Some(false));
    assert_eq!(a.reflect_partial_eq(&Value::List(dynamic(&[1]))), Some(false));
    assert_eq!(a.reflect_partial_eq(&a.clone_value()), Some(true));
    assert_eq!(a.reflect_kind(), ReflectKind::List);
}

#[test]
fn clone_dynamic_stands_for_the_small_list() {
    let a = small(&[1, 2]);
    let copy = a.clone_dynamic();
    assert_eq!(copy.debug(), "DynamicList([1, 2])");
    assert_eq!(list_partial_eq(&copy, &Value::List(dynamic(&[1, 2]))), Some(true));
    let Some(TypeInfo::List(info)) = copy.get_represented_type_info() else {
        panic!("the clone stands for a list type");
    };
    assert!(info.is::<SmallList<u32>>());
    assert!(info.item_is::<u32>());
    assert!(copy.is_dynamic());
}

#[test]
fn describes_its_own_type() {
    let TypeInfo::List(info) = SmallList::<u64>::type_info() else {
        panic!("a small list is a list");
    };
    assert!(info.is::<SmallList<u64>>());
    assert!(!info.is::<SmallList<u32>>());
    assert!(info.item_is::<u64>());
    assert_eq!(info.type_path(), ListInfo::new::<SmallList<u64>, u64>().type_path());
    let list = small(&[1]);
    let Some(TypeInfo::List(own)) = list.get_represented_type_info() else {
        panic!("a small list stands for its own type");
    };
    assert!(own.is::<SmallList<u32>>());
    assert_eq!(List::type_id(&list), TypeId { id: 600250918495605050 });
}

#[test]
fn hash_goes_by_the_type_of_the_list() {
    let mut one = SmallList::<u32>::new();
    one.push(Value::U32(7));
    assert_eq!(list_hash(&one), Some(4133930885763654609));
    assert_ne!(list_hash(&one), list_hash(&dynamic(&[7])));
}
