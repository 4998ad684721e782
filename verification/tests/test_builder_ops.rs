use rstring_builder::{DeleteError, StringBuilder};

#[test]
fn new_builder_is_empty() {
  let builder = StringBuilder::new();
  assert_eq!(0, builder.len());
  assert_eq!("", builder.string());
  let sized = StringBuilder::with_capacity(0);
  assert_eq!(0, sized.len());
  assert_eq!("", sized.string());
}

#[test]
fn append_before_delete_shows_whole_text() {
  let mut builder = StringBuilder::new();
  builder.append("a").append('b').append("c".to_string()).append("\ndef");
  assert_eq!("abc\ndef", builder.string());
  assert_eq!(7, builder.len());
}

#[test]
fn appends_join_in_call_order() {
  let parts = ["one", "", "two", "three"];
  let mut builder = StringBuilder::new();
  let mut expected = String::new();
  let mut count = 0;
  for part in parts {
    builder.append(part);
    expected.push_str(part);
    count += part.chars().count();
    assert_eq!(count, builder.len());
    assert_eq!(expected, builder.string());
  }
  assert_eq!("onetwothree", builder.string());
}

#[test]
fn len_counts_scalar_values_not_bytes() {
  let mut builder = StringBuilder::new();
  builder.append("four");
  assert_eq!(4, builder.len());
  builder.append("華文");
  assert_eq!(6, builder.len());
  assert_eq!("four華文", builder.string());
  assert_eq!(10, builder.string().len());
}

#[test]
fn delete_at_removes_one_scalar_value() {
  let mut builder = StringBuilder::new();
  builder.append("abc");
  assert_eq!("bc", builder.delete_at(0).string());
  assert_eq!("b", builder.delete_at(1).string());
  assert_eq!("", builder.delete_at(0).string());
}

#[test]
fn delete_removes_the_range() {
  let mut builder = StringBuilder::new();
  builder.append("abc\ndef");
  assert_eq!("adef", builder.delete(1, 4).string());
  assert_eq!(4, builder.len());
  let len = builder.len();
  assert_eq!("", builder.delete(0, len).string());
}

#[test]
fn delete_between_multibyte_values() {
  let mut builder = StringBuilder::new();
  builder.append("a華b文c");
  assert_eq!("a文c", builder.delete(1, 3).string());
  assert_eq!(3, builder.len());
}

#[test]
fn delete_at_matches_delete_of_one() {
  for index in 0..5 {
    let mut one = StringBuilder::new();
    one.append("hello");
    let mut other = StringBuilder::new();
    other.append("hello");
    one.delete_at(index);
    other.delete(index, index + 1);
    assert_eq!(one.string(), other.string());
    assert!(one == other);
  }
}

#[test]
fn appending_the_deleted_tail_restores() {
  let mut builder = StringBuilder::new();
  builder.append("hello world");
  builder.delete(5, 11);
  assert_eq!("hello", builder.string());
  builder.append(" world");
  assert_eq!("hello world", builder.string());
}

#[test]
fn clear_then_append_again() {
  let mut builder = StringBuilder::new();
  builder.append("abc\ndef");
  assert_eq!("", builder.clear().string());
  assert_eq!(0, builder.len());
  builder.append("xy").append(7u8);
  assert_eq!("xy7", builder.string());
  assert_eq!(3, builder.len());
}

#[test]
fn string_leaves_the_builder_alone() {
  let mut builder = StringBuilder::new();
  builder.append("abc");
  assert_eq!("abc", builder.string());
  assert_eq!("abc", builder.string());
  assert_eq!("abc", builder.to_string());
  assert_eq!(3, builder.len());
}

#[test]
fn try_delete_refuses_zero_end() {
  let mut builder = StringBuilder::new();
  builder.append("abc");
  assert_eq!(Err(DeleteError::EndIsZero), builder.try_delete(0, 0));
  assert_eq!(Err(DeleteError::EndIsZero), builder.try_delete(5, 0));
  assert_eq!("abc", builder.string());
}

#[test]
fn try_delete_refuses_end_not_after_start() {
  let mut builder = StringBuilder::new();
  builder.append("abcd");
  assert_eq!(
    Err(DeleteError::EndNotAfterStart { start: 2, end: 2 }),
    builder.try_delete(2, 2)
  );
  assert_eq!(
    Err(DeleteError::EndNotAfterStart { start: 3, end: 1 }),
    builder.try_delete(3, 1)
  );
  assert_eq!("abcd", builder.string());
}

#[test]
fn try_delete_refuses_end_beyond_content() {
  let mut builder = StringBuilder::new();
  builder.append("abcd");
  let len = builder.len();
  assert_eq!(
    Err(DeleteError::EndOutOfRange { end: 5 }),
    builder.try_delete(0, len + 1)
  );
  assert_eq!("abcd", builder.string());
  let mut empty = StringBuilder::new();
  assert_eq!(Err(DeleteError::EndOutOfRange { end: 1 }), empty.try_delete(0, 1));
}

#[test]
fn try_delete_deletes_a_good_range() {
  let mut builder = StringBuilder::new();
  builder.append("abcd");
  assert_eq!(Ok(()), builder.try_delete(1, 3));
  assert_eq!("ad", builder.string());
  assert_eq!(Ok(()), builder.try_delete(0, 2));
  assert_eq!("", builder.string());
}

#[test]
fn delete_error_messages_name_the_indices() {
  assert_eq!(
    "end index must be greater then 0. end: 0",
    DeleteError::EndIsZero.message()
  );
  assert_eq!(
    "End index must be greater than start. start: 3 end: 1",
    DeleteError::EndNotAfterStart { start: 3, end: 1 }.message()
  );
  assert_eq!(
    "Out of index range. end: 12",
    DeleteError::EndOutOfRange { end: 12 }.message()
  );
}

#[test]
fn builders_compare_by_content() {
  let mut one = StringBuilder::new();
  one.append("ab").append('c');
  let mut other = StringBuilder::with_capacity(1);
  other.append("abc");
  assert!(one == other);
  other.append('d');
  assert!(one != other);
  other.delete_at(0);
  assert!(one != other);
  assert_eq!("StringBuilder { chars: ['a', 'b', 'c'] }", format!("{:?}", one));
}
