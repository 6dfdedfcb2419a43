//! Known answers for the three generators, one seed and length each.

use seedgen::gen::gen_ascii;
use seedgen::gen::gen_num;
use seedgen::gen::gen_text;

#[test]
fn test_gen_num_1() {
    assert_eq!(gen_num(5, 787 + 5), 84531)
}

#[test]
fn test_gen_num_2() {
    assert_eq!(gen_num(11, 238094721521236520 + 11), 43185815040)
}

#[test]
fn test_gen_ascii_1() {
    assert_eq!(gen_ascii(13, 1337 + 13), "51h|dwTo,\\>|~")
}

#[test]
fn test_gen_ascii_2() {
    assert_eq!(gen_ascii(2, 4721398401298347 + 2), "g^")
}

#[test]
fn test_gen_text_1() {
    assert_eq!(gen_text(8, 44 + 8), "nmZnzCvv")
}

#[test]
fn test_gen_text_2() {
    assert_eq!(gen_text(21, 1239214354653452417 + 21), "PxQgiWCYclxWMOJyzBDMe")
}
