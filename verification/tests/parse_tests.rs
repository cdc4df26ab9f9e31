use svtree::combinator::Cursor;
use svtree::net_and_variable_types::{
    integer_atom_type, integer_type, integer_vector_type, non_integer_type, signing,
};
use svtree::net_and_variable_types::{data_type, net_type};
use svtree::nodes::{
    DataType, IntegerAtomType, IntegerType, IntegerVectorType, NetType, NonIntegerType, Signing,
    StructUnion, TypeReference,
};

fn chars(s: &str) -> Vec<char> {
    s.chars().collect()
}

fn start() -> Cursor {
    Cursor { pos: 0, line: 1 }
}

#[test]
fn signed_keyword_span_is_exact() {
    let src = chars("signed rest");
    let (c2, node) = signing(&src, start()).unwrap();
    match node {
        Signing::Signed(sym) => {
            let l = &sym.nodes.0;
            assert_eq!(l.offset, 0);
            assert_eq!(l.len, 6);
            assert_eq!(l.line, 1);
            assert!(l.val.is_none());
            let text: String = src[l.offset..l.offset + l.len].iter().collect();
            assert_eq!(text, "signed");
        },
        _ => panic!("expected the signed alternative"),
    }
    assert_eq!(c2.pos, 6);
}

#[test]
fn unsigned_after_whitespace_tracks_line() {
    let src = chars("\n\n  unsigned");
    let (c2, node) = signing(&src, start()).unwrap();
    match node {
        Signing::Unsigned(sym) => {
            let l = &sym.nodes.0;
            assert_eq!(l.offset, 4);
            assert_eq!(l.len, 8);
            assert_eq!(l.line, 3);
        },
        _ => panic!("expected the unsigned alternative"),
    }
    assert_eq!(c2.pos, 12);
    assert_eq!(c2.line, 3);
}

#[test]
fn signing_miss_is_soft_at_entry() {
    let src = chars("wire x");
    let f = signing(&src, start()).unwrap_err();
    assert!(!f.hard);
    assert_eq!(f.offset, 0);
    assert_eq!(f.line, 1);
}

#[test]
fn keyword_respects_word_boundary() {
    // `signedx` must not match the keyword `signed`.
    let src = chars("signedx");
    assert!(signing(&src, start()).is_err());
    // `integer` must select the Integer alternative, not the `int` prefix.
    let src2 = chars("integer");
    let (c2, node) = integer_atom_type(&src2, start()).unwrap();
    assert!(matches!(node, IntegerAtomType::Integer(_)));
    assert_eq!(c2.pos, 7);
}

#[test]
fn int_selects_the_atom_alternative() {
    let src = chars("int x");
    let (c2, node) = integer_type(&src, start()).unwrap();
    match node {
        IntegerType::IntegerAtomType(IntegerAtomType::Int(sym)) => {
            assert_eq!(sym.nodes.0.offset, 0);
            assert_eq!(sym.nodes.0.len, 3);
        },
        _ => panic!("expected the atom alternative tagged Int"),
    }
    assert_eq!(c2.pos, 3);
}

#[test]
fn bit_selects_the_vector_alternative() {
    let src = chars("bit y");
    let (_, node) = integer_type(&src, start()).unwrap();
    assert!(matches!(
        node,
        IntegerType::IntegerVectorType(IntegerVectorType::Bit(_))
    ));
}

#[test]
fn logic_keyword_parses_as_vector_kind() {
    let src = chars("logic signed [7:0]");
    let (c2, node) = integer_vector_type(&src, start()).unwrap();
    match node {
        IntegerVectorType::Logic(sym) => {
            let l = &sym.nodes.0;
            let text: String = src[l.offset..l.offset + l.len].iter().collect();
            assert_eq!(text, "logic");
        },
        _ => panic!("expected the logic alternative"),
    }
    // the signing field follows from the same cursor
    let (c3, node2) = signing(&src, c2).unwrap();
    match node2 {
        Signing::Signed(sym) => {
            let text: String =
                src[sym.nodes.0.offset..sym.nodes.0.offset + sym.nodes.0.len].iter().collect();
            assert_eq!(text, "signed");
        },
        _ => panic!("expected the signed alternative"),
    }
    assert_eq!(c3.pos, 12);
}

#[test]
fn realtime_is_not_real() {
    let src = chars("realtime");
    let (_, node) = non_integer_type(&src, start()).unwrap();
    assert!(matches!(node, NonIntegerType::Realtime(_)));
}

#[test]
fn parsing_twice_yields_the_same_result() {
    let src = chars("  logic");
    let a = integer_vector_type(&src, start()).unwrap();
    let b = integer_vector_type(&src, start()).unwrap();
    match (&a.1, &b.1) {
        (IntegerVectorType::Logic(x), IntegerVectorType::Logic(y)) => {
            assert_eq!(x.nodes.0.offset, y.nodes.0.offset);
            assert_eq!(x.nodes.0.len, y.nodes.0.len);
        },
        _ => panic!("expected logic both times"),
    }
    assert_eq!(a.0, b.0);
}

#[test]
fn alternation_tries_alternatives_in_order() {
    // none of the signing alternatives match, so the whole production
    // reports a soft miss from the entry cursor, as if only the later
    // alternatives had been tried.
    let src = chars("time");
    let f = signing(&src, start()).unwrap_err();
    assert!(!f.hard);
    assert_eq!(f.offset, 0);
    let (_, node) = integer_atom_type(&src, start()).unwrap();
    assert!(matches!(node, IntegerAtomType::Time(_)));
}

#[test]
fn tri_variants_resolve_by_boundary_and_order() {
    let (_, a) = net_type(&chars("tri"), start()).unwrap();
    assert!(matches!(a, NetType::Tri(_)));
    let (_, b) = net_type(&chars("triand x"), start()).unwrap();
    assert!(matches!(b, NetType::Triand(_)));
    let (_, c) = net_type(&chars("tri0"), start()).unwrap();
    assert!(matches!(c, NetType::Tri0(_)));
    let (_, d) = net_type(&chars("supply1 w"), start()).unwrap();
    assert!(matches!(d, NetType::Supply1(_)));
    let f = net_type(&chars("interconnect"), start()).unwrap_err();
    assert!(!f.hard);
    assert_eq!(f.offset, 0);
}

#[test]
fn vector_type_round_trip_fields() {
    // `logic signed [7:0]` as a vector data type: kind, signing, one dimension.
    let src: Vec<char> = "logic signed [7:0]".chars().collect();
    let c = Cursor { pos: 0, line: 1 };
    let (end, dt) = data_type(&src, c).unwrap();
    assert_eq!(end.pos, 18);
    match dt {
        DataType::Vector(v) => {
            match &v.nodes.0 {
                IntegerVectorType::Logic(s) => {
                    let t: String = s.nodes.0.str(&src).iter().collect();
                    assert_eq!(t, "logic");
                },
                _ => panic!("wrong kind"),
            }
            let sg = v.nodes.1.as_ref().unwrap();
            match sg {
                Signing::Signed(s) => {
                    let t: String = s.nodes.0.str(&src).iter().collect();
                    assert_eq!(t, "signed");
                },
                _ => panic!("wrong signing"),
            }
            assert_eq!(v.nodes.2.len(), 1);
            let d = &v.nodes.2[0];
            // concatenating the covered spans with the separating whitespace
            // reproduces the input exactly
            let open = &d.nodes.0.nodes.0;
            assert_eq!((open.offset, open.len), (13, 1));
            let close = &d.nodes.2.nodes.0;
            assert_eq!((close.offset, close.len), (17, 1));
            let msb = &d.nodes.1.nodes.0.nodes.0.nodes.0;
            let t: String = msb.str(&src).iter().collect();
            assert_eq!(t, "7");
            let lsb = &d.nodes.1.nodes.2.nodes.0.nodes.0;
            let t: String = lsb.str(&src).iter().collect();
            assert_eq!(t, "0");
        },
        _ => panic!("expected a vector data type"),
    }
}

#[test]
fn alternative_selection_int_and_bit() {
    // `int` is an atom type tagged Int with no signing; `bit` is a vector.
    let src: Vec<char> = "int".chars().collect();
    let (_, dt) = data_type(&src, Cursor { pos: 0, line: 1 }).unwrap();
    match dt {
        DataType::Atom(a) => {
            assert!(matches!(a.nodes.0, IntegerAtomType::Int(_)));
            assert!(a.nodes.1.is_none());
        },
        _ => panic!("expected an atom data type"),
    }
    let src2: Vec<char> = "bit".chars().collect();
    let (_, dt2) = data_type(&src2, Cursor { pos: 0, line: 1 }).unwrap();
    match dt2 {
        DataType::Vector(v) => {
            assert!(matches!(v.nodes.0, IntegerVectorType::Bit(_)));
        },
        _ => panic!("expected a vector data type"),
    }
}

#[test]
fn enum_with_two_names_and_initializer() {
    // `enum {A, B = 2}`: two name declarations, the second with `= 2`.
    let src: Vec<char> = "enum {A, B = 2}".chars().collect();
    let (end, dt) = data_type(&src, Cursor { pos: 0, line: 1 }).unwrap();
    assert_eq!(end.pos, 15);
    match dt {
        DataType::Enum(e) => {
            assert!(e.nodes.1.is_none());
            let body = &e.nodes.2;
            let first = &body.nodes.1;
            let t: String = first.nodes.0.nodes.0.str(&src).iter().collect();
            assert_eq!(t, "A");
            assert!(first.nodes.2.is_none());
            assert_eq!(body.nodes.2.len(), 1);
            let second = &body.nodes.2[0].1;
            let t: String = second.nodes.0.nodes.0.str(&src).iter().collect();
            assert_eq!(t, "B");
            let init = second.nodes.2.as_ref().unwrap();
            let t: String = init.1.nodes.0.nodes.0.str(&src).iter().collect();
            assert_eq!(t, "2");
        },
        _ => panic!("expected an enum data type"),
    }
}

#[test]
fn cut_failure_is_hard_and_positioned() {
    // after `[` the dimension is committed: a malformed range fails hard
    let src: Vec<char> = "logic [7:]".chars().collect();
    let err = data_type(&src, Cursor { pos: 0, line: 1 }).unwrap_err();
    assert!(err.hard);
    assert_eq!(err.offset, 9);
    // an unrecognized start stays a soft miss at the entry cursor
    let src2: Vec<char> = "+".chars().collect();
    let err2 = data_type(&src2, Cursor { pos: 0, line: 1 }).unwrap_err();
    assert!(!err2.hard);
    assert_eq!(err2.offset, 0);
}

#[test]
fn repetition_is_greedy_and_terminates() {
    let src: Vec<char> = "bit [3:0] [7:0] x".chars().collect();
    let (end, dt) = data_type(&src, Cursor { pos: 0, line: 1 }).unwrap();
    match dt {
        DataType::Vector(v) => assert_eq!(v.nodes.2.len(), 2),
        _ => panic!("expected a vector data type"),
    }
    assert_eq!(end.pos, 15);
}

#[test]
fn struct_members_parse() {
    let src: Vec<char> = "struct {int a; bit b, c;}".chars().collect();
    let (end, dt) = data_type(&src, Cursor { pos: 0, line: 1 }).unwrap();
    assert_eq!(end.pos, 25);
    match dt {
        DataType::Union(u) => {
            assert!(matches!(u.nodes.0, StructUnion::Struct(_)));
            let body = &u.nodes.2;
            assert_eq!(body.nodes.2.len(), 1);
            let second = &body.nodes.2[0];
            assert_eq!(second.nodes.3.nodes.1.len(), 1);
        },
        _ => panic!("expected a struct data type"),
    }
}

#[test]
fn type_reference_of_data_type() {
    let src: Vec<char> = "type (int)".chars().collect();
    let (_, dt) = data_type(&src, Cursor { pos: 0, line: 1 }).unwrap();
    match dt {
        DataType::TypeReference(t) => match *t {
            TypeReference::DataType(d) => {
                assert!(matches!(*d.nodes.2, DataType::Atom(_)));
            },
            _ => panic!("expected the data-type shape"),
        },
        _ => panic!("expected a type reference"),
    }
}
