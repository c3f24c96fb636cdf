//! Collection helpers of the standard library: their signatures and assembly.

use crate::ir::IrType;
use vstd::prelude::*;
use vstd::string::StringExecFns;

verus! {

/// The collection helpers of the standard library.
pub struct Collections;

/// The signature of one collection helper.
#[derive(Debug)]
pub struct CollectionFunction {
    pub name: String,
    pub params: Vec<(String, IrType)>,
    pub return_type: Option<IrType>,
}

/// How many entries the collections table holds.
pub const COLLECTION_FUNCTION_COUNT: usize = 48;

/// The name at position `i` of the collections table.
pub open spec fn collection_function_name(i: int) -> Seq<char> {
    if i == 0 {
        "vec_new"@
    } else if i == 1 {
        "vec_with_capacity"@
    } else if i == 2 {
        "vec_push"@
    } else if i == 3 {
        "vec_pop"@
    } else if i == 4 {
        "vec_get"@
    } else if i == 5 {
        "vec_len"@
    } else if i == 6 {
        "vec_is_empty"@
    } else if i == 7 {
        "vec_clear"@
    } else if i == 8 {
        "vec_contains"@
    } else if i == 9 {
        "vec_remove"@
    } else if i == 10 {
        "vec_insert"@
    } else if i == 11 {
        "vec_sort"@
    } else if i == 12 {
        "vec_reverse"@
    } else if i == 13 {
        "hashmap_new"@
    } else if i == 14 {
        "hashmap_with_capacity"@
    } else if i == 15 {
        "hashmap_insert"@
    } else if i == 16 {
        "hashmap_get"@
    } else if i == 17 {
        "hashmap_remove"@
    } else if i == 18 {
        "hashmap_contains_key"@
    } else if i == 19 {
        "hashmap_len"@
    } else if i == 20 {
        "hashmap_is_empty"@
    } else if i == 21 {
        "hashmap_clear"@
    } else if i == 22 {
        "hashmap_keys"@
    } else if i == 23 {
        "hashmap_values"@
    } else if i == 24 {
        "hashset_new"@
    } else if i == 25 {
        "hashset_with_capacity"@
    } else if i == 26 {
        "hashset_insert"@
    } else if i == 27 {
        "hashset_remove"@
    } else if i == 28 {
        "hashset_contains"@
    } else if i == 29 {
        "hashset_len"@
    } else if i == 30 {
        "hashset_is_empty"@
    } else if i == 31 {
        "hashset_clear"@
    } else if i == 32 {
        "hashset_union"@
    } else if i == 33 {
        "hashset_intersection"@
    } else if i == 34 {
        "hashset_difference"@
    } else if i == 35 {
        "option_some"@
    } else if i == 36 {
        "option_none"@
    } else if i == 37 {
        "option_is_some"@
    } else if i == 38 {
        "option_is_none"@
    } else if i == 39 {
        "option_unwrap"@
    } else if i == 40 {
        "option_unwrap_or"@
    } else if i == 41 {
        "option_map"@
    } else if i == 42 {
        "result_ok"@
    } else if i == 43 {
        "result_err"@
    } else if i == 44 {
        "result_is_ok"@
    } else if i == 45 {
        "result_is_err"@
    } else if i == 46 {
        "result_unwrap"@
    } else if i == 47 {
        "result_unwrap_or"@
    } else {
        Seq::empty()
    }
}

/// The parameters and result type at position `i` of the collections table.
pub open spec fn collection_function_signature(i: int, f: CollectionFunction) -> bool {
    if i == 0 {
        f.params@.len() == 0 && (f.return_type matches Some(x1) && (x1 matches IrType::Named(x2) && x2@ == "Vec"@))
    } else if i == 1 {
        f.params@.len() == 1 && f.params@[0].0@ == "capacity"@ && (f.params@[0].1 is U64) && (f.return_type matches Some(x3) && (x3 matches IrType::Named(x4) && x4@ == "Vec"@))
    } else if i == 2 {
        f.params@.len() == 2 && f.params@[0].0@ == "vec"@ && (f.params@[0].1 matches IrType::MutRef(x5) && (*x5 matches IrType::Named(x6) && x6@ == "Vec"@)) && f.params@[1].0@ == "value"@ && (f.params@[1].1 is U64) && f.return_type is None
    } else if i == 3 {
        f.params@.len() == 1 && f.params@[0].0@ == "vec"@ && (f.params@[0].1 matches IrType::MutRef(x7) && (*x7 matches IrType::Named(x8) && x8@ == "Vec"@)) && (f.return_type matches Some(x9) && (x9 matches IrType::Named(x10) && x10@ == "Option"@))
    } else if i == 4 {
        f.params@.len() == 2 && f.params@[0].0@ == "vec"@ && (f.params@[0].1 matches IrType::Ref(x11) && (*x11 matches IrType::Named(x12) && x12@ == "Vec"@)) && f.params@[1].0@ == "index"@ && (f.params@[1].1 is U64) && (f.return_type matches Some(x13) && (x13 matches IrType::Named(x14) && x14@ == "Option"@))
    } else if i == 5 {
        f.params@.len() == 1 && f.params@[0].0@ == "vec"@ && (f.params@[0].1 matches IrType::Ref(x15) && (*x15 matches IrType::Named(x16) && x16@ == "Vec"@)) && (f.return_type matches Some(x17) && (x17 is U64))
    } else if i == 6 {
        f.params@.len() == 1 && f.params@[0].0@ == "vec"@ && (f.params@[0].1 matches IrType::Ref(x18) && (*x18 matches IrType::Named(x19) && x19@ == "Vec"@)) && (f.return_type matches Some(x20) && (x20 is Bool))
    } else if i == 7 {
        f.params@.len() == 1 && f.params@[0].0@ == "vec"@ && (f.params@[0].1 matches IrType::MutRef(x21) && (*x21 matches IrType::Named(x22) && x22@ == "Vec"@)) && f.return_type is None
    } else if i == 8 {
        f.params@.len() == 2 && f.params@[0].0@ == "vec"@ && (f.params@[0].1 matches IrType::Ref(x23) && (*x23 matches IrType::Named(x24) && x24@ == "Vec"@)) && f.params@[1].0@ == "value"@ && (f.params@[1].1 is U64) && (f.return_type matches Some(x25) && (x25 is Bool))
    } else if i == 9 {
        f.params@.len() == 2 && f.params@[0].0@ == "vec"@ && (f.params@[0].1 matches IrType::MutRef(x26) && (*x26 matches IrType::Named(x27) && x27@ == "Vec"@)) && f.params@[1].0@ == "index"@ && (f.params@[1].1 is U64) && (f.return_type matches Some(x28) && (x28 is U64))
    } else if i == 10 {
        f.params@.len() == 3 && f.params@[0].0@ == "vec"@ && (f.params@[0].1 matches IrType::MutRef(x29) && (*x29 matches IrType::Named(x30) && x30@ == "Vec"@)) && f.params@[1].0@ == "index"@ && (f.params@[1].1 is U64) && f.params@[2].0@ == "value"@ && (f.params@[2].1 is U64) && f.return_type is None
    } else if i == 11 {
        f.params@.len() == 1 && f.params@[0].0@ == "vec"@ && (f.params@[0].1 matches IrType::MutRef(x31) && (*x31 matches IrType::Named(x32) && x32@ == "Vec"@)) && f.return_type is None
    } else if i == 12 {
        f.params@.len() == 1 && f.params@[0].0@ == "vec"@ && (f.params@[0].1 matches IrType::MutRef(x33) && (*x33 matches IrType::Named(x34) && x34@ == "Vec"@)) && f.return_type is None
    } else if i == 13 {
        f.params@.len() == 0 && (f.return_type matches Some(x35) && (x35 matches IrType::Named(x36) && x36@ == "HashMap"@))
    } else if i == 14 {
        f.params@.len() == 1 && f.params@[0].0@ == "capacity"@ && (f.params@[0].1 is U64) && (f.return_type matches Some(x37) && (x37 matches IrType::Named(x38) && x38@ == "HashMap"@))
    } else if i == 15 {
        f.params@.len() == 3 && f.params@[0].0@ == "map"@ && (f.params@[0].1 matches IrType::MutRef(x39) && (*x39 matches IrType::Named(x40) && x40@ == "HashMap"@)) && f.params@[1].0@ == "key"@ && (f.params@[1].1 is U64) && f.params@[2].0@ == "value"@ && (f.params@[2].1 is U64) && (f.return_type matches Some(x41) && (x41 matches IrType::Named(x42) && x42@ == "Option"@))
    } else if i == 16 {
        f.params@.len() == 2 && f.params@[0].0@ == "map"@ && (f.params@[0].1 matches IrType::Ref(x43) && (*x43 matches IrType::Named(x44) && x44@ == "HashMap"@)) && f.params@[1].0@ == "key"@ && (f.params@[1].1 is U64) && (f.return_type matches Some(x45) && (x45 matches IrType::Named(x46) && x46@ == "Option"@))
    } else if i == 17 {
        f.params@.len() == 2 && f.params@[0].0@ == "map"@ && (f.params@[0].1 matches IrType::MutRef(x47) && (*x47 matches IrType::Named(x48) && x48@ == "HashMap"@)) && f.params@[1].0@ == "key"@ && (f.params@[1].1 is U64) && (f.return_type matches Some(x49) && (x49 matches IrType::Named(x50) && x50@ == "Option"@))
    } else if i == 18 {
        f.params@.len() == 2 && f.params@[0].0@ == "map"@ && (f.params@[0].1 matches IrType::Ref(x51) && (*x51 matches IrType::Named(x52) && x52@ == "HashMap"@)) && f.params@[1].0@ == "key"@ && (f.params@[1].1 is U64) && (f.return_type matches Some(x53) && (x53 is Bool))
    } else if i == 19 {
        f.params@.len() == 1 && f.params@[0].0@ == "map"@ && (f.params@[0].1 matches IrType::Ref(x54) && (*x54 matches IrType::Named(x55) && x55@ == "HashMap"@)) && (f.return_type matches Some(x56) && (x56 is U64))
    } else if i == 20 {
        f.params@.len() == 1 && f.params@[0].0@ == "map"@ && (f.params@[0].1 matches IrType::Ref(x57) && (*x57 matches IrType::Named(x58) && x58@ == "HashMap"@)) && (f.return_type matches Some(x59) && (x59 is Bool))
    } else if i == 21 {
        f.params@.len() == 1 && f.params@[0].0@ == "map"@ && (f.params@[0].1 matches IrType::MutRef(x60) && (*x60 matches IrType::Named(x61) && x61@ == "HashMap"@)) && f.return_type is None
    } else if i == 22 {
        f.params@.len() == 1 && f.params@[0].0@ == "map"@ && (f.params@[0].1 matches IrType::Ref(x62) && (*x62 matches IrType::Named(x63) && x63@ == "HashMap"@)) && (f.return_type matches Some(x64) && (x64 matches IrType::Named(x65) && x65@ == "Vec"@))
    } else if i == 23 {
        f.params@.len() == 1 && f.params@[0].0@ == "map"@ && (f.params@[0].1 matches IrType::Ref(x66) && (*x66 matches IrType::Named(x67) && x67@ == "HashMap"@)) && (f.return_type matches Some(x68) && (x68 matches IrType::Named(x69) && x69@ == "Vec"@))
    } else if i == 24 {
        f.params@.len() == 0 && (f.return_type matches Some(x70) && (x70 matches IrType::Named(x71) && x71@ == "HashSet"@))
    } else if i == 25 {
        f.params@.len() == 1 && f.params@[0].0@ == "capacity"@ && (f.params@[0].1 is U64) && (f.return_type matches Some(x72) && (x72 matches IrType::Named(x73) && x73@ == "HashSet"@))
    } else if i == 26 {
        f.params@.len() == 2 && f.params@[0].0@ == "set"@ && (f.params@[0].1 matches IrType::MutRef(x74) && (*x74 matches IrType::Named(x75) && x75@ == "HashSet"@)) && f.params@[1].0@ == "value"@ && (f.params@[1].1 is U64) && (f.return_type matches Some(x76) && (x76 is Bool))
    } else if i == 27 {
        f.params@.len() == 2 && f.params@[0].0@ == "set"@ && (f.params@[0].1 matches IrType::MutRef(x77) && (*x77 matches IrType::Named(x78) && x78@ == "HashSet"@)) && f.params@[1].0@ == "value"@ && (f.params@[1].1 is U64) && (f.return_type matches Some(x79) && (x79 is Bool))
    } else if i == 28 {
        f.params@.len() == 2 && f.params@[0].0@ == "set"@ && (f.params@[0].1 matches IrType::Ref(x80) && (*x80 matches IrType::Named(x81) && x81@ == "HashSet"@)) && f.params@[1].0@ == "value"@ && (f.params@[1].1 is U64) && (f.return_type matches Some(x82) && (x82 is Bool))
    } else if i == 29 {
        f.params@.len() == 1 && f.params@[0].0@ == "set"@ && (f.params@[0].1 matches IrType::Ref(x83) && (*x83 matches IrType::Named(x84) && x84@ == "HashSet"@)) && (f.return_type matches Some(x85) && (x85 is U64))
    } else if i == 30 {
        f.params@.len() == 1 && f.params@[0].0@ == "set"@ && (f.params@[0].1 matches IrType::Ref(x86) && (*x86 matches IrType::Named(x87) && x87@ == "HashSet"@)) && (f.return_type matches Some(x88) && (x88 is Bool))
    } else if i == 31 {
        f.params@.len() == 1 && f.params@[0].0@ == "set"@ && (f.params@[0].1 matches IrType::MutRef(x89) && (*x89 matches IrType::Named(x90) && x90@ == "HashSet"@)) && f.return_type is None
    } else if i == 32 {
        f.params@.len() == 2 && f.params@[0].0@ == "a"@ && (f.params@[0].1 matches IrType::Ref(x91) && (*x91 matches IrType::Named(x92) && x92@ == "HashSet"@)) && f.params@[1].0@ == "b"@ && (f.params@[1].1 matches IrType::Ref(x93) && (*x93 matches IrType::Named(x94) && x94@ == "HashSet"@)) && (f.return_type matches Some(x95) && (x95 matches IrType::Named(x96) && x96@ == "HashSet"@))
    } else if i == 33 {
        f.params@.len() == 2 && f.params@[0].0@ == "a"@ && (f.params@[0].1 matches IrType::Ref(x97) && (*x97 matches IrType::Named(x98) && x98@ == "HashSet"@)) && f.params@[1].0@ == "b"@ && (f.params@[1].1 matches IrType::Ref(x99) && (*x99 matches IrType::Named(x100) && x100@ == "HashSet"@)) && (f.return_type matches Some(x101) && (x101 matches IrType::Named(x102) && x102@ == "HashSet"@))
    } else if i == 34 {
        f.params@.len() == 2 && f.params@[0].0@ == "a"@ && (f.params@[0].1 matches IrType::Ref(x103) && (*x103 matches IrType::Named(x104) && x104@ == "HashSet"@)) && f.params@[1].0@ == "b"@ && (f.params@[1].1 matches IrType::Ref(x105) && (*x105 matches IrType::Named(x106) && x106@ == "HashSet"@)) && (f.return_type matches Some(x107) && (x107 matches IrType::Named(x108) && x108@ == "HashSet"@))
    } else if i == 35 {
        f.params@.len() == 1 && f.params@[0].0@ == "value"@ && (f.params@[0].1 is U64) && (f.return_type matches Some(x109) && (x109 matches IrType::Named(x110) && x110@ == "Option"@))
    } else if i == 36 {
        f.params@.len() == 0 && (f.return_type matches Some(x111) && (x111 matches IrType::Named(x112) && x112@ == "Option"@))
    } else if i == 37 {
        f.params@.len() == 1 && f.params@[0].0@ == "opt"@ && (f.params@[0].1 matches IrType::Ref(x113) && (*x113 matches IrType::Named(x114) && x114@ == "Option"@)) && (f.return_type matches Some(x115) && (x115 is Bool))
    } else if i == 38 {
        f.params@.len() == 1 && f.params@[0].0@ == "opt"@ && (f.params@[0].1 matches IrType::Ref(x116) && (*x116 matches IrType::Named(x117) && x117@ == "Option"@)) && (f.return_type matches Some(x118) && (x118 is Bool))
    } else if i == 39 {
        f.params@.len() == 1 && f.params@[0].0@ == "opt"@ && (f.params@[0].1 matches IrType::Named(x119) && x119@ == "Option"@) && (f.return_type matches Some(x120) && (x120 is U64))
    } else if i == 40 {
        f.params@.len() == 2 && f.params@[0].0@ == "opt"@ && (f.params@[0].1 matches IrType::Named(x121) && x121@ == "Option"@) && f.params@[1].0@ == "default"@ && (f.params@[1].1 is U64) && (f.return_type matches Some(x122) && (x122 is U64))
    } else if i == 41 {
        f.params@.len() == 2 && f.params@[0].0@ == "opt"@ && (f.params@[0].1 matches IrType::Named(x123) && x123@ == "Option"@) && f.params@[1].0@ == "f"@ && (f.params@[1].1 matches IrType::Named(x124) && x124@ == "Function"@) && (f.return_type matches Some(x125) && (x125 matches IrType::Named(x126) && x126@ == "Option"@))
    } else if i == 42 {
        f.params@.len() == 1 && f.params@[0].0@ == "value"@ && (f.params@[0].1 is U64) && (f.return_type matches Some(x127) && (x127 matches IrType::Named(x128) && x128@ == "Result"@))
    } else if i == 43 {
        f.params@.len() == 1 && f.params@[0].0@ == "error"@ && (f.params@[0].1 is U64) && (f.return_type matches Some(x129) && (x129 matches IrType::Named(x130) && x130@ == "Result"@))
    } else if i == 44 {
        f.params@.len() == 1 && f.params@[0].0@ == "res"@ && (f.params@[0].1 matches IrType::Ref(x131) && (*x131 matches IrType::Named(x132) && x132@ == "Result"@)) && (f.return_type matches Some(x133) && (x133 is Bool))
    } else if i == 45 {
        f.params@.len() == 1 && f.params@[0].0@ == "res"@ && (f.params@[0].1 matches IrType::Ref(x134) && (*x134 matches IrType::Named(x135) && x135@ == "Result"@)) && (f.return_type matches Some(x136) && (x136 is Bool))
    } else if i == 46 {
        f.params@.len() == 1 && f.params@[0].0@ == "res"@ && (f.params@[0].1 matches IrType::Named(x137) && x137@ == "Result"@) && (f.return_type matches Some(x138) && (x138 is U64))
    } else if i == 47 {
        f.params@.len() == 2 && f.params@[0].0@ == "res"@ && (f.params@[0].1 matches IrType::Named(x139) && x139@ == "Result"@) && f.params@[1].0@ == "default"@ && (f.params@[1].1 is U64) && (f.return_type matches Some(x140) && (x140 is U64))
    } else {
        false
    }
}

/// Position `i` of the collections table holds `f`.
pub open spec fn collection_function_entry(i: int, f: CollectionFunction) -> bool {
    f.name@ == collection_function_name(i) && collection_function_signature(i, f)
}

fn collection_function_part_0(i: usize) -> (f: CollectionFunction)
    requires
        0 <= i < 16,
    ensures
        collection_function_entry(i as int, f),
{
    match i {
        0 => {
            let params: Vec<(String, IrType)> = Vec::new();
            CollectionFunction { name: "vec_new".to_owned(), params, return_type: Some(IrType::Named("Vec".to_owned())) }
        },
        1 => {
            let mut params: Vec<(String, IrType)> = Vec::new();
            params.push(("capacity".to_owned(), IrType::U64));
            CollectionFunction { name: "vec_with_capacity".to_owned(), params, return_type: Some(IrType::Named("Vec".to_owned())) }
        },
        2 => {
            let mut params: Vec<(String, IrType)> = Vec::new();
            params.push(("vec".to_owned(), IrType::MutRef(Box::new(IrType::Named("Vec".to_owned())))));
            params.push(("value".to_owned(), IrType::U64));
            CollectionFunction { name: "vec_push".to_owned(), params, return_type: None }
        },
        3 => {
            let mut params: Vec<(String, IrType)> = Vec::new();
            params.push(("vec".to_owned(), IrType::MutRef(Box::new(IrType::Named("Vec".to_owned())))));
            CollectionFunction { name: "vec_pop".to_owned(), params, return_type: Some(IrType::Named("Option".to_owned())) }
        },
        4 => {
            let mut params: Vec<(String, IrType)> = Vec::new();
            params.push(("vec".to_owned(), IrType::Ref(Box::new(IrType::Named("Vec".to_owned())))));
            params.push(("index".to_owned(), IrType::U64));
            CollectionFunction { name: "vec_get".to_owned(), params, return_type: Some(IrType::Named("Option".to_owned())) }
        },
        5 => {
            let mut params: Vec<(String, IrType)> = Vec::new();
            params.push(("vec".to_owned(), IrType::Ref(Box::new(IrType::Named("Vec".to_owned())))));
            CollectionFunction { name: "vec_len".to_owned(), params, return_type: Some(IrType::U64) }
        },
        6 => {
            let mut params: Vec<(String, IrType)> = Vec::new();
            params.push(("vec".to_owned(), IrType::Ref(Box::new(IrType::Named("Vec".to_owned())))));
            CollectionFunction { name: "vec_is_empty".to_owned(), params, return_type: Some(IrType::Bool) }
        },
        7 => {
            let mut params: Vec<(String, IrType)> = Vec::new();
            params.push(("vec".to_owned(), IrType::MutRef(Box::new(IrType::Named("Vec".to_owned())))));
            CollectionFunction { name: "vec_clear".to_owned(), params, return_type: None }
        },
        8 => {
            let mut params: Vec<(String, IrType)> = Vec::new();
            params.push(("vec".to_owned(), IrType::Ref(Box::new(IrType::Named("Vec".to_owned())))));
            params.push(("value".to_owned(), IrType::U64));
            CollectionFunction { name: "vec_contains".to_owned(), params, return_type: Some(IrType::Bool) }
        },
        9 => {
            let mut params: Vec<(String, IrType)> = Vec::new();
            params.push(("vec".to_owned(), IrType::MutRef(Box::new(IrType::Named("Vec".to_owned())))));
            params.push(("index".to_owned(), IrType::U64));
            CollectionFunction { name: "vec_remove".to_owned(), params, return_type: Some(IrType::U64) }
        },
        10 => {
            let mut params: Vec<(String, IrType)> = Vec::new();
            params.push(("vec".to_owned(), IrType::MutRef(Box::new(IrType::Named("Vec".to_owned())))));
            params.push(("index".to_owned(), IrType::U64));
            params.push(("value".to_owned(), IrType::U64));
            CollectionFunction { name: "vec_insert".to_owned(), params, return_type: None }
        },
        11 => {
            let mut params: Vec<(String, IrType)> = Vec::new();
            params.push(("vec".to_owned(), IrType::MutRef(Box::new(IrType::Named("Vec".to_owned())))));
            CollectionFunction { name: "vec_sort".to_owned(), params, return_type: None }
        },
        12 => {
            let mut params: Vec<(String, IrType)> = Vec::new();
            params.push(("vec".to_owned(), IrType::MutRef(Box::new(IrType::Named("Vec".to_owned())))));
            CollectionFunction { name: "vec_reverse".to_owned(), params, return_type: None }
        },
        13 => {
            let params: Vec<(String, IrType)> = Vec::new();
            CollectionFunction { name: "hashmap_new".to_owned(), params, return_type: Some(IrType::Named("HashMap".to_owned())) }
        },
        14 => {
            let mut params: Vec<(String, IrType)> = Vec::new();
            params.push(("capacity".to_owned(), IrType::U64));
            CollectionFunction { name: "hashmap_with_capacity".to_owned(), params, return_type: Some(IrType::Named("HashMap".to_owned())) }
        },
        _ => {
            let mut params: Vec<(String, IrType)> = Vec::new();
            params.push(("map".to_owned(), IrType::MutRef(Box::new(IrType::Named("HashMap".to_owned())))));
            params.push(("key".to_owned(), IrType::U64));
            params.push(("value".to_owned(), IrType::U64));
            CollectionFunction { name: "hashmap_insert".to_owned(), params, return_type: Some(IrType::Named("Option".to_owned())) }
        },
    }
}

fn collection_function_part_1(i: usize) -> (f: CollectionFunction)
    requires
        16 <= i < 32,
    ensures
        collection_function_entry(i as int, f),
{
    match i {
        16 => {
            let mut params: Vec<(String, IrType)> = Vec::new();
            params.push(("map".to_owned(), IrType::Ref(Box::new(IrType::Named("HashMap".to_owned())))));
            params.push(("key".to_owned(), IrType::U64));
            CollectionFunction { name: "hashmap_get".to_owned(), params, return_type: Some(IrType::Named("Option".to_owned())) }
        },
        17 => {
            let mut params: Vec<(String, IrType)> = Vec::new();
            params.push(("map".to_owned(), IrType::MutRef(Box::new(IrType::Named("HashMap".to_owned())))));
            params.push(("key".to_owned(), IrType::U64));
            CollectionFunction { name: "hashmap_remove".to_owned(), params, return_type: Some(IrType::Named("Option".to_owned())) }
        },
        18 => {
            let mut params: Vec<(String, IrType)> = Vec::new();
            params.push(("map".to_owned(), IrType::Ref(Box::new(IrType::Named("HashMap".to_owned())))));
            params.push(("key".to_owned(), IrType::U64));
            CollectionFunction { name: "hashmap_contains_key".to_owned(), params, return_type: Some(IrType::Bool) }
        },
        19 => {
            let mut params: Vec<(String, IrType)> = Vec::new();
            params.push(("map".to_owned(), IrType::Ref(Box::new(IrType::Named("HashMap".to_owned())))));
            CollectionFunction { name: "hashmap_len".to_owned(), params, return_type: Some(IrType::U64) }
        },
        20 => {
            let mut params: Vec<(String, IrType)> = Vec::new();
            params.push(("map".to_owned(), IrType::Ref(Box::new(IrType::Named("HashMap".to_owned())))));
            CollectionFunction { name: "hashmap_is_empty".to_owned(), params, return_type: Some(IrType::Bool) }
        },
        21 => {
            let mut params: Vec<(String, IrType)> = Vec::new();
            params.push(("map".to_owned(), IrType::MutRef(Box::new(IrType::Named("HashMap".to_owned())))));
            CollectionFunction { name: "hashmap_clear".to_owned(), params, return_type: None }
        },
        22 => {
            let mut params: Vec<(String, IrType)> = Vec::new();
            params.push(("map".to_owned(), IrType::Ref(Box::new(IrType::Named("HashMap".to_owned())))));
            CollectionFunction { name: "hashmap_keys".to_owned(), params, return_type: Some(IrType::Named("Vec".to_owned())) }
        },
        23 => {
            let mut params: Vec<(String, IrType)> = Vec::new();
            params.push(("map".to_owned(), IrType::Ref(Box::new(IrType::Named("HashMap".to_owned())))));
            CollectionFunction { name: "hashmap_values".to_owned(), params, return_type: Some(IrType::Named("Vec".to_owned())) }
        },
        24 => {
            let params: Vec<(String, IrType)> = Vec::new();
            CollectionFunction { name: "hashset_new".to_owned(), params, return_type: Some(IrType::Named("HashSet".to_owned())) }
        },
        25 => {
            let mut params: Vec<(String, IrType)> = Vec::new();
            params.push(("capacity".to_owned(), IrType::U64));
            CollectionFunction { name: "hashset_with_capacity".to_owned(), params, return_type: Some(IrType::Named("HashSet".to_owned())) }
        },
        26 => {
            let mut params: Vec<(String, IrType)> = Vec::new();
            params.push(("set".to_owned(), IrType::MutRef(Box::new(IrType::Named("HashSet".to_owned())))));
            params.push(("value".to_owned(), IrType::U64));
            CollectionFunction { name: "hashset_insert".to_owned(), params, return_type: Some(IrType::Bool) }
        },
        27 => {
            let mut params: Vec<(String, IrType)> = Vec::new();
            params.push(("set".to_owned(), IrType::MutRef(Box::new(IrType::Named("HashSet".to_owned())))));
            params.push(("value".to_owned(), IrType::U64));
            CollectionFunction { name: "hashset_remove".to_owned(), params, return_type: Some(IrType::Bool) }
        },
        28 => {
            let mut params: Vec<(String, IrType)> = Vec::new();
            params.push(("set".to_owned(), IrType::Ref(Box::new(IrType::Named("HashSet".to_owned())))));
            params.push(("value".to_owned(), IrType::U64));
            CollectionFunction { name: "hashset_contains".to_owned(), params, return_type: Some(IrType::Bool) }
        },
        29 => {
            let mut params: Vec<(String, IrType)> = Vec::new();
            params.push(("set".to_owned(), IrType::Ref(Box::new(IrType::Named("HashSet".to_owned())))));
            CollectionFunction { name: "hashset_len".to_owned(), params, return_type: Some(IrType::U64) }
        },
        30 => {
            let mut params: Vec<(String, IrType)> = Vec::new();
            params.push(("set".to_owned(), IrType::Ref(Box::new(IrType::Named("HashSet".to_owned())))));
            CollectionFunction { name: "hashset_is_empty".to_owned(), params, return_type: Some(IrType::Bool) }
        },
        _ => {
            let mut params: Vec<(String, IrType)> = Vec::new();
            params.push(("set".to_owned(), IrType::MutRef(Box::new(IrType::Named("HashSet".to_owned())))));
            CollectionFunction { name: "hashset_clear".to_owned(), params, return_type: None }
        },
    }
}

fn collection_function_part_2(i: usize) -> (f: CollectionFunction)
    requires
        32 <= i < 48,
    ensures
        collection_function_entry(i as int, f),
{
    match i {
        32 => {
            let mut params: Vec<(String, IrType)> = Vec::new();
            params.push(("a".to_owned(), IrType::Ref(Box::new(IrType::Named("HashSet".to_owned())))));
            params.push(("b".to_owned(), IrType::Ref(Box::new(IrType::Named("HashSet".to_owned())))));
            CollectionFunction { name: "hashset_union".to_owned(), params, return_type: Some(IrType::Named("HashSet".to_owned())) }
        },
        33 => {
            let mut params: Vec<(String, IrType)> = Vec::new();
            params.push(("a".to_owned(), IrType::Ref(Box::new(IrType::Named("HashSet".to_owned())))));
            params.push(("b".to_owned(), IrType::Ref(Box::new(IrType::Named("HashSet".to_owned())))));
            CollectionFunction { name: "hashset_intersection".to_owned(), params, return_type: Some(IrType::Named("HashSet".to_owned())) }
        },
        34 => {
            let mut params: Vec<(String, IrType)> = Vec::new();
            params.push(("a".to_owned(), IrType::Ref(Box::new(IrType::Named("HashSet".to_owned())))));
            params.push(("b".to_owned(), IrType::Ref(Box::new(IrType::Named("HashSet".to_owned())))));
            CollectionFunction { name: "hashset_difference".to_owned(), params, return_type: Some(IrType::Named("HashSet".to_owned())) }
        },
        35 => {
            let mut params: Vec<(String, IrType)> = Vec::new();
            params.push(("value".to_owned(), IrType::U64));
            CollectionFunction { name: "option_some".to_owned(), params, return_type: Some(IrType::Named("Option".to_owned())) }
        },
        36 => {
            let params: Vec<(String, IrType)> = Vec::new();
            CollectionFunction { name: "option_none".to_owned(), params, return_type: Some(IrType::Named("Option".to_owned())) }
        },
        37 => {
            let mut params: Vec<(String, IrType)> = Vec::new();
            params.push(("opt".to_owned(), IrType::Ref(Box::new(IrType::Named("Option".to_owned())))));
            CollectionFunction { name: "option_is_some".to_owned(), params, return_type: Some(IrType::Bool) }
        },
        38 => {
            let mut params: Vec<(String, IrType)> = Vec::new();
            params.push(("opt".to_owned(), IrType::Ref(Box::new(IrType::Named("Option".to_owned())))));
            CollectionFunction { name: "option_is_none".to_owned(), params, return_type: Some(IrType::Bool) }
        },
        39 => {
            let mut params: Vec<(String, IrType)> = Vec::new();
            params.push(("opt".to_owned(), IrType::Named("Option".to_owned())));
            CollectionFunction { name: "option_unwrap".to_owned(), params, return_type: Some(IrType::U64) }
        },
        40 => {
            let mut params: Vec<(String, IrType)> = Vec::new();
            params.push(("opt".to_owned(), IrType::Named("Option".to_owned())));
            params.push(("default".to_owned(), IrType::U64));
            CollectionFunction { name: "option_unwrap_or".to_owned(), params, return_type: Some(IrType::U64) }
        },
        41 => {
            let mut params: Vec<(String, IrType)> = Vec::new();
            params.push(("opt".to_owned(), IrType::Named("Option".to_owned())));
            params.push(("f".to_owned(), IrType::Named("Function".to_owned())));
            CollectionFunction { name: "option_map".to_owned(), params, return_type: Some(IrType::Named("Option".to_owned())) }
        },
        42 => {
            let mut params: Vec<(String, IrType)> = Vec::new();
            params.push(("value".to_owned(), IrType::U64));
            CollectionFunction { name: "result_ok".to_owned(), params, return_type: Some(IrType::Named("Result".to_owned())) }
        },
        43 => {
            let mut params: Vec<(String, IrType)> = Vec::new();
            params.push(("error".to_owned(), IrType::U64));
            CollectionFunction { name: "result_err".to_owned(), params, return_type: Some(IrType::Named("Result".to_owned())) }
        },
        44 => {
            let mut params: Vec<(String, IrType)> = Vec::new();
            params.push(("res".to_owned(), IrType::Ref(Box::new(IrType::Named("Result".to_owned())))));
            CollectionFunction { name: "result_is_ok".to_owned(), params, return_type: Some(IrType::Bool) }
        },
        45 => {
            let mut params: Vec<(String, IrType)> = Vec::new();
            params.push(("res".to_owned(), IrType::Ref(Box::new(IrType::Named("Result".to_owned())))));
            CollectionFunction { name: "result_is_err".to_owned(), params, return_type: Some(IrType::Bool) }
        },
        46 => {
            let mut params: Vec<(String, IrType)> = Vec::new();
            params.push(("res".to_owned(), IrType::Named("Result".to_owned())));
            CollectionFunction { name: "result_unwrap".to_owned(), params, return_type: Some(IrType::U64) }
        },
        _ => {
            let mut params: Vec<(String, IrType)> = Vec::new();
            params.push(("res".to_owned(), IrType::Named("Result".to_owned())));
            params.push(("default".to_owned(), IrType::U64));
            CollectionFunction { name: "result_unwrap_or".to_owned(), params, return_type: Some(IrType::U64) }
        },
    }
}

/// The entry at position `i` of the collections table.
fn collection_function_at(i: usize) -> (f: CollectionFunction)
    requires
        i < COLLECTION_FUNCTION_COUNT,
    ensures
        collection_function_entry(i as int, f),
{
    if i < 16 {
        collection_function_part_0(i)
    } else if i < 32 {
        collection_function_part_1(i)
    } else {
        collection_function_part_2(i)
    }
}


/// The `Vec` routines, appended to `prefix`.
pub open spec fn vec_impl_text(prefix: Seq<char>) -> Seq<char> {
    prefix
        + "# Vec::new\n"@
        + ".global __vec_new\n"@
        + "__vec_new:\n"@
        + "    li a0, 24          # sizeof(Vec) = 24 bytes\n"@
        + "    li a7, 2101        # alloc syscall\n"@
        + "    ecall\n"@
        + "    sd zero, 0(a0)     # capacity = 0\n"@
        + "    sd zero, 8(a0)     # length = 0\n"@
        + "    sd zero, 16(a0)    # data = null\n"@
        + "    ret\n\n"@
        + "# Vec::push\n"@
        + ".global __vec_push\n"@
        + "__vec_push:\n"@
        + "    addi sp, sp, -32\n"@
        + "    sd ra, 24(sp)\n"@
        + "    sd s0, 16(sp)\n"@
        + "    sd s1, 8(sp)\n"@
        + "    mv s0, a0          # vec pointer\n"@
        + "    mv s1, a1          # value to push\n"@
        + "    ld t0, 0(s0)       # capacity\n"@
        + "    ld t1, 8(s0)       # length\n"@
        + "    bge t1, t0, .Lvec_push_grow\n"@
        + ".Lvec_push_insert:\n"@
        + "    ld t2, 16(s0)      # data pointer\n"@
        + "    slli t3, t1, 3     # offset = length * 8\n"@
        + "    add t2, t2, t3\n"@
        + "    sd s1, 0(t2)       # store value\n"@
        + "    addi t1, t1, 1\n"@
        + "    sd t1, 8(s0)       # length++\n"@
        + "    ld ra, 24(sp)\n"@
        + "    ld s0, 16(sp)\n"@
        + "    ld s1, 8(sp)\n"@
        + "    addi sp, sp, 32\n"@
        + "    ret\n"@
        + ".Lvec_push_grow:\n"@
        + "    # Grow capacity (simplified: double)\n"@
        + "    beqz t0, .Lvec_push_init\n"@
        + "    slli t0, t0, 1\n"@
        + "    j .Lvec_push_alloc\n"@
        + ".Lvec_push_init:\n"@
        + "    li t0, 4           # initial capacity\n"@
        + ".Lvec_push_alloc:\n"@
        + "    sd t0, 0(s0)       # update capacity\n"@
        + "    slli a0, t0, 3     # new_size = capacity * 8\n"@
        + "    li a7, 2101        # alloc\n"@
        + "    ecall\n"@
        + "    sd a0, 16(s0)      # update data pointer\n"@
        + "    j .Lvec_push_insert\n\n"@
        + "# Vec::len\n"@
        + ".global __vec_len\n"@
        + "__vec_len:\n"@
        + "    ld a0, 8(a0)       # return length\n"@
        + "    ret\n\n"@
        + "# Vec::is_empty\n"@
        + ".global __vec_is_empty\n"@
        + "__vec_is_empty:\n"@
        + "    ld t0, 8(a0)       # length\n"@
        + "    seqz a0, t0        # return length == 0\n"@
        + "    ret\n\n"@
}

/// The `HashMap` routines, appended to `prefix`.
pub open spec fn hashmap_impl_text(prefix: Seq<char>) -> Seq<char> {
    prefix
        + "# HashMap::new\n"@
        + ".global __hashmap_new\n"@
        + "__hashmap_new:\n"@
        + "    li a0, 32          # sizeof(HashMap)\n"@
        + "    li a7, 2101        # alloc\n"@
        + "    ecall\n"@
        + "    li t0, 16          # default bucket count\n"@
        + "    sd t0, 0(a0)       # bucket_count\n"@
        + "    sd zero, 8(a0)     # entry_count\n"@
        + "    sd zero, 16(a0)    # buckets\n"@
        + "    sd zero, 24(a0)    # hasher state\n"@
        + "    ret\n\n"@
        + "# HashMap::insert\n"@
        + ".global __hashmap_insert\n"@
        + "__hashmap_insert:\n"@
        + "    addi sp, sp, -48\n"@
        + "    sd ra, 40(sp)\n"@
        + "    sd s0, 32(sp)\n"@
        + "    sd s1, 24(sp)\n"@
        + "    sd s2, 16(sp)\n"@
        + "    sd s3, 8(sp)\n"@
        + "    mv s0, a0          # map\n"@
        + "    mv s1, a1          # key\n"@
        + "    mv s2, a2          # value\n"@
        + "    # Compute hash (simplified: key % bucket_count)\n"@
        + "    ld t0, 0(s0)       # bucket_count\n"@
        + "    rem s3, s1, t0     # hash = key % bucket_count\n"@
        + "    # Insert entry...\n"@
        + "    ld ra, 40(sp)\n"@
        + "    ld s0, 32(sp)\n"@
        + "    ld s1, 24(sp)\n"@
        + "    ld s2, 16(sp)\n"@
        + "    ld s3, 8(sp)\n"@
        + "    addi sp, sp, 48\n"@
        + "    ret\n\n"@
        + "# HashMap::len\n"@
        + ".global __hashmap_len\n"@
        + "__hashmap_len:\n"@
        + "    ld a0, 8(a0)       # return entry_count\n"@
        + "    ret\n\n"@
}

/// The `HashSet` routines, appended to `prefix`.
pub open spec fn hashset_impl_text(prefix: Seq<char>) -> Seq<char> {
    prefix
        + "# HashSet::new\n"@
        + ".global __hashset_new\n"@
        + "__hashset_new:\n"@
        + "    j __hashmap_new    # HashSet is HashMap with unit values\n\n"@
        + "# HashSet::insert\n"@
        + ".global __hashset_insert\n"@
        + "__hashset_insert:\n"@
        + "    li a2, 1           # value = 1 (unit)\n"@
        + "    j __hashmap_insert\n\n"@
        + "# HashSet::contains\n"@
        + ".global __hashset_contains\n"@
        + "__hashset_contains:\n"@
        + "    addi sp, sp, -16\n"@
        + "    sd ra, 8(sp)\n"@
        + "    call __hashmap_get\n"@
        + "    ld ra, 8(sp)\n"@
        + "    addi sp, sp, 16\n"@
        + "    # Check if result is Some\n"@
        + "    ret\n\n"@
}

/// The whole collections assembly listing.
pub open spec fn collections_assembly() -> Seq<char> {
    hashset_impl_text(
        hashmap_impl_text(vec_impl_text("# CellScript Collections Library\n\n"@ + ".section .text\n\n"@)),
    )
}

fn push_vec_impl(out: &mut String)
    ensures
        final(out)@ == vec_impl_text(old(out)@),
{
    out.append("# Vec::new\n");
    out.append(".global __vec_new\n");
    out.append("__vec_new:\n");
    out.append("    li a0, 24          # sizeof(Vec) = 24 bytes\n");
    out.append("    li a7, 2101        # alloc syscall\n");
    out.append("    ecall\n");
    out.append("    sd zero, 0(a0)     # capacity = 0\n");
    out.append("    sd zero, 8(a0)     # length = 0\n");
    out.append("    sd zero, 16(a0)    # data = null\n");
    out.append("    ret\n\n");
    out.append("# Vec::push\n");
    out.append(".global __vec_push\n");
    out.append("__vec_push:\n");
    out.append("    addi sp, sp, -32\n");
    out.append("    sd ra, 24(sp)\n");
    out.append("    sd s0, 16(sp)\n");
    out.append("    sd s1, 8(sp)\n");
    out.append("    mv s0, a0          # vec pointer\n");
    out.append("    mv s1, a1          # value to push\n");
    out.append("    ld t0, 0(s0)       # capacity\n");
    out.append("    ld t1, 8(s0)       # length\n");
    out.append("    bge t1, t0, .Lvec_push_grow\n");
    out.append(".Lvec_push_insert:\n");
    out.append("    ld t2, 16(s0)      # data pointer\n");
    out.append("    slli t3, t1, 3     # offset = length * 8\n");
    out.append("    add t2, t2, t3\n");
    out.append("    sd s1, 0(t2)       # store value\n");
    out.append("    addi t1, t1, 1\n");
    out.append("    sd t1, 8(s0)       # length++\n");
    out.append("    ld ra, 24(sp)\n");
    out.append("    ld s0, 16(sp)\n");
    out.append("    ld s1, 8(sp)\n");
    out.append("    addi sp, sp, 32\n");
    out.append("    ret\n");
    out.append(".Lvec_push_grow:\n");
    out.append("    # Grow capacity (simplified: double)\n");
    out.append("    beqz t0, .Lvec_push_init\n");
    out.append("    slli t0, t0, 1\n");
    out.append("    j .Lvec_push_alloc\n");
    out.append(".Lvec_push_init:\n");
    out.append("    li t0, 4           # initial capacity\n");
    out.append(".Lvec_push_alloc:\n");
    out.append("    sd t0, 0(s0)       # update capacity\n");
    out.append("    slli a0, t0, 3     # new_size = capacity * 8\n");
    out.append("    li a7, 2101        # alloc\n");
    out.append("    ecall\n");
    out.append("    sd a0, 16(s0)      # update data pointer\n");
    out.append("    j .Lvec_push_insert\n\n");
    out.append("# Vec::len\n");
    out.append(".global __vec_len\n");
    out.append("__vec_len:\n");
    out.append("    ld a0, 8(a0)       # return length\n");
    out.append("    ret\n\n");
    out.append("# Vec::is_empty\n");
    out.append(".global __vec_is_empty\n");
    out.append("__vec_is_empty:\n");
    out.append("    ld t0, 8(a0)       # length\n");
    out.append("    seqz a0, t0        # return length == 0\n");
    out.append("    ret\n\n");
}

fn push_hashmap_impl(out: &mut String)
    ensures
        final(out)@ == hashmap_impl_text(old(out)@),
{
    out.append("# HashMap::new\n");
    out.append(".global __hashmap_new\n");
    out.append("__hashmap_new:\n");
    out.append("    li a0, 32          # sizeof(HashMap)\n");
    out.append("    li a7, 2101        # alloc\n");
    out.append("    ecall\n");
    out.append("    li t0, 16          # default bucket count\n");
    out.append("    sd t0, 0(a0)       # bucket_count\n");
    out.append("    sd zero, 8(a0)     # entry_count\n");
    out.append("    sd zero, 16(a0)    # buckets\n");
    out.append("    sd zero, 24(a0)    # hasher state\n");
    out.append("    ret\n\n");
    out.append("# HashMap::insert\n");
    out.append(".global __hashmap_insert\n");
    out.append("__hashmap_insert:\n");
    out.append("    addi sp, sp, -48\n");
    out.append("    sd ra, 40(sp)\n");
    out.append("    sd s0, 32(sp)\n");
    out.append("    sd s1, 24(sp)\n");
    out.append("    sd s2, 16(sp)\n");
    out.append("    sd s3, 8(sp)\n");
    out.append("    mv s0, a0          # map\n");
    out.append("    mv s1, a1          # key\n");
    out.append("    mv s2, a2          # value\n");
    out.append("    # Compute hash (simplified: key % bucket_count)\n");
    out.append("    ld t0, 0(s0)       # bucket_count\n");
    out.append("    rem s3, s1, t0     # hash = key % bucket_count\n");
    out.append("    # Insert entry...\n");
    out.append("    ld ra, 40(sp)\n");
    out.append("    ld s0, 32(sp)\n");
    out.append("    ld s1, 24(sp)\n");
    out.append("    ld s2, 16(sp)\n");
    out.append("    ld s3, 8(sp)\n");
    out.append("    addi sp, sp, 48\n");
    out.append("    ret\n\n");
    out.append("# HashMap::len\n");
    out.append(".global __hashmap_len\n");
    out.append("__hashmap_len:\n");
    out.append("    ld a0, 8(a0)       # return entry_count\n");
    out.append("    ret\n\n");
}

fn push_hashset_impl(out: &mut String)
    ensures
        final(out)@ == hashset_impl_text(old(out)@),
{
    out.append("# HashSet::new\n");
    out.append(".global __hashset_new\n");
    out.append("__hashset_new:\n");
    out.append("    j __hashmap_new    # HashSet is HashMap with unit values\n\n");
    out.append("# HashSet::insert\n");
    out.append(".global __hashset_insert\n");
    out.append("__hashset_insert:\n");
    out.append("    li a2, 1           # value = 1 (unit)\n");
    out.append("    j __hashmap_insert\n\n");
    out.append("# HashSet::contains\n");
    out.append(".global __hashset_contains\n");
    out.append("__hashset_contains:\n");
    out.append("    addi sp, sp, -16\n");
    out.append("    sd ra, 8(sp)\n");
    out.append("    call __hashmap_get\n");
    out.append("    ld ra, 8(sp)\n");
    out.append("    addi sp, sp, 16\n");
    out.append("    # Check if result is Some\n");
    out.append("    ret\n\n");
}

impl Collections {
    /// The signatures of all collection helpers, in table order.
    pub fn functions() -> (r: Vec<CollectionFunction>)
        ensures
            r@.len() == COLLECTION_FUNCTION_COUNT,
            forall|i: int| 0 <= i < r@.len() ==> collection_function_entry(i, #[trigger] r@[i]),
    {
        let mut v: Vec<CollectionFunction> = Vec::new();
        let mut i: usize = 0;
        while i < COLLECTION_FUNCTION_COUNT
            invariant
                i <= COLLECTION_FUNCTION_COUNT,
                v@.len() == i,
                forall|j: int| 0 <= j < v@.len() ==> collection_function_entry(j, #[trigger] v@[j]),
            decreases COLLECTION_FUNCTION_COUNT - i,
        {
            v.push(collection_function_at(i));
            i += 1;
        }
        v
    }

    /// The assembly of the collection helpers.
    pub fn generate_assembly() -> (r: String)
        ensures
            r@ == collections_assembly(),
    {
        let mut out = String::new();
        out.append("# CellScript Collections Library\n\n");
        out.append(".section .text\n\n");
        proof {
            assert(Seq::<char>::empty() + "# CellScript Collections Library\n\n"@ =~= "# CellScript Collections Library\n\n"@);
        }
        push_vec_impl(&mut out);
        push_hashmap_impl(&mut out);
        push_hashset_impl(&mut out);
        out
    }
}

} // verus!
