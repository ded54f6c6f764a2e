use array_as_struct::decl::{Decl, DeclBody, Field, Ty, TyTok};
use array_as_struct::transform::transform;
use array_as_struct::wrapper::Wrapper;

fn word_ty(w: &str) -> Ty {
    Ty { toks: vec![TyTok::Word(w.to_string())] }
}

fn named_field(name: &str, ty: Ty, span: u32) -> Field {
    Field { attrs: vec![], vis: String::new(), name: Some(name.to_string()), ty, ty_span: span }
}

#[test]
fn main() {
    let decl = Decl {
        span: 0,
        attrs: vec![],
        vis: "pub".to_string(),
        ident: "Foo".to_string(),
        generics: vec![],
        body: DeclBody::Struct {
            fields: vec![
                named_field("bar", word_ty("u32"), 1),
                named_field("baz", word_ty("u32"), 2),
            ],
        },
    };
    let art = transform(decl).unwrap();

    let bar = String::from("bar");
    let baz = String::from("baz");
    assert_eq!(art.index.position_of(&bar), Some(0));
    assert_eq!(art.index.position_of(&baz), Some(1));

    let f = Wrapper::from_val(vec![10u32, 15]);
    assert_eq!(f.to_array(), vec![10, 15]);

    let mut f = Wrapper::from_val(vec![10u32, 15]);
    let bar_at = art.index.position_of(&bar).unwrap();
    let baz_at = art.index.position_of(&baz).unwrap();
    f.set_field(bar_at, 2);
    assert_eq!(*f.field_ref(bar_at), 2);
    f.set_field(baz_at, 12);
    assert_eq!(*f.field_ref(baz_at), 12);
}
