use ragout::{
    Area, Border, ComponentTree, Container, IdError, Padding, Pos, SpaceError, Term, TermSource,
    Text, TreeError, ValidationError,
};

#[test]
fn components_active() {
    let mut tree = ComponentTree::new(80, 24);
    assert!(tree.term_from_id(0).is_err());
    assert_eq!(tree.len(), 1);

    assert!(tree.term_from_id(7).is_ok());

    assert_eq!(tree.len(), 2);

    assert_eq!(tree.focused().unwrap(), 0);
    assert!(tree.focus(3).is_err());
    assert_eq!(tree.focused().unwrap(), 0);
    assert!(tree.focus(7).is_ok());
    assert_eq!(tree.focused().unwrap(), 7);

    // a window of 500 x 500 with a container of no size at (4, 5)
    let mut term = Term::new(5, 500, 500);
    let mut c = Container::default();
    c.hpos = 4;
    c.vpos = 5;
    c.id = [5, 1];
    let mut ne = Text::default();
    ne.hpos = 7;
    ne.vpos = 4;
    ne.id = [5, 1, 3];
    ne.hpos = ne.hpos + c.hpos;
    ne.vpos = ne.vpos + c.vpos;

    let id = ne.id;

    assert!(term.push_container(c).is_ok());
    // an odd id on a field marked editable is a kind mismatch
    let res = term.push_noedit(ne);
    assert!(matches!(
        res,
        Err((_, TreeError::IdError(IdError::KindMismatch)))
    ));
    // marked read-only, its origin (11, 9) lies outside the container's
    // empty content
    let mut ne = match res {
        Err((ne, _)) => ne,
        Ok(()) => unreachable!(),
    };
    ne.editable = false;
    assert!(matches!(
        term.push_noedit(ne),
        Err((_, TreeError::SpaceError(SpaceError::OriginOutOfBounds)))
    ));

    let res = term.focus(&[5, 1, 8]);
    assert!(res.is_err());

    let res = term.focus(&id);
    assert!(res.is_err());
    assert!(term.focused().is_err());
}

#[test]
fn assign() {
    let mut tree = ComponentTree::new(80, 24);
    assert_eq!(tree.term_auto(), Some(1));
    assert!(tree.has_term(0));
    let term: &Term = tree.term_ref(0).unwrap();
    assert_eq!(term.id, 0);
    assert!(tree.term_ref(78).is_none());
    assert!(tree.term_from_id(1).is_err());
    assert!(tree.term_from_id(2).is_ok());
    assert!(tree.term_from_id(4).is_ok());
    assert_eq!(tree.assign_term_id(), Some(3));
}

#[test]
fn area() {
    let term = Term::new(5, 500, 500);
    let mut c1 = Container::default();
    c1.w = 24;
    c1.h = 32;
    c1.hpos = 2;
    c1.vpos = 5;
    assert!(term.assign_valid_container_area(&c1).is_ok());
    c1.w = 8354;
    c1.h = 3;
    c1.hpos = 2;
    c1.vpos = 5;
    assert!(term.assign_valid_container_area(&c1).is_err());
    c1.w = 4;
    c1.h = 8324;
    c1.hpos = 2;
    c1.vpos = 5;
    assert!(term.assign_valid_container_area(&c1).is_err());
    c1.w = 4;
    c1.h = 3;
    c1.hpos = 8355;
    c1.vpos = 5;
    assert!(term.assign_valid_container_area(&c1).is_err());
    c1.w = 4;
    c1.h = 3;
    c1.hpos = 2;
    c1.vpos = 8653;
    assert!(term.assign_valid_container_area(&c1).is_err());
}

#[test]
fn cursor() {
    let mut term = Term::new(5, 500, 500);
    assert!(term
        .container(
            &[5, 0],
            Pos::Value(56),
            Pos::Value(15),
            Pos::Value(0),
            Area::Values { w: 35, h: 8 },
            Border::Empty,
            Padding::Empty,
        )
        .is_ok());
    assert!(term
        .input(
            &[5, 0, 0],
            Pos::Value(1),
            Pos::Value(1),
            Pos::Value(0),
            Area::Values { w: 23, h: 2 },
            Border::Empty,
            Padding::Empty,
        )
        .is_ok());

    let res = term.focus(&[5, 0, 0]);
    assert!(res.is_ok());
    // the field's absolute origin: container origin plus relative origin
    assert_eq!([term.crsh, term.crsv], [56 + 1, 15 + 1]);
}

#[test]
fn objects() {
    let mut term = Term::new(0, 600, 600);
    assert!(term.push_container(Container::default()).is_ok());
    assert!(term
        .container(
            &[0, 1],
            Pos::Value(56),
            Pos::Value(15),
            Pos::Value(0),
            Area::Values { w: 35, h: 18 },
            Border::Empty,
            Padding::Empty,
        )
        .is_ok());
    assert_eq!(term.containers.len(), 2);
    assert!(term.push_input(Text::default()).is_ok());
    assert!(term
        .noedit(
            &[0, 1, 1],
            Pos::Value(12),
            Pos::Value(12),
            Pos::Value(0),
            Area::Values { w: 2, h: 2 },
            Border::Empty,
            Padding::Empty,
            &[],
        )
        .is_ok());

    assert_eq!(term.tlen(), 2)
}

#[test]
fn objects1() {
    let mut term = Term::new(0, 500, 500);
    assert!(term.push_container(Container::default()).is_ok());
    assert!(term
        .container(
            &[0, 1],
            Pos::Value(56),
            Pos::Value(15),
            Pos::Value(0),
            Area::Values { w: 35, h: 18 },
            Border::Empty,
            Padding::Empty,
        )
        .is_ok());
    assert_eq!(term.containers.len(), 2);
    assert!(term.push_input(Text::default()).is_ok());
    assert!(term
        .noedit(
            &[0, 1, 1],
            Pos::Value(12),
            Pos::Value(12),
            Pos::Value(0),
            Area::Values { w: 2, h: 2 },
            Border::Empty,
            Padding::Empty,
            &[],
        )
        .is_ok());

    assert_eq!(term.tlen(), 2);
}

#[test]
fn objects_count() {
    let mut term = Term::new(0, 500, 500);

    for (id, at) in [([0, 0], 5), ([0, 1], 15), ([0, 2], 25)] {
        assert!(term
            .container(
                &id,
                Pos::Value(at),
                Pos::Value(at),
                Pos::Value(0),
                Area::Values { w: 10, h: 10 },
                Border::Empty,
                Padding::Empty,
            )
            .is_ok());
    }

    assert!(term
        .input(
            &[0, 2, 0],
            Pos::Value(1),
            Pos::Value(2),
            Pos::Value(0),
            Area::Values { w: 2, h: 2 },
            Border::Empty,
            Padding::Empty,
        )
        .is_ok());
    assert!(term
        .noedit(
            &[0, 1, 1],
            Pos::Value(2),
            Pos::Value(2),
            Pos::Value(0),
            Area::Values { w: 2, h: 2 },
            Border::Empty,
            Padding::Empty,
            &[],
        )
        .is_ok());
    assert!(term
        .noedit(
            &[0, 0, 1],
            Pos::Value(1),
            Pos::Value(1),
            Pos::Value(0),
            Area::Values { w: 2, h: 2 },
            Border::Empty,
            Padding::Empty,
            &[],
        )
        .is_ok());

    assert_eq!(term.tlen(), 3);
    assert_eq!(term.ilen(), 1);
    assert_eq!(term.nelen(), 2);
}

#[test]
fn scenario_container_at_start() {
    let mut term = Term::new(0, 500, 500);
    let r = term.container(
        &[0, 0],
        Pos::Start,
        Pos::Start,
        Pos::Value(0),
        Area::Values { w: 35, h: 8 },
        Border::Empty,
        Padding::Empty,
    );
    assert!(r.is_ok());
    let c = &term.containers[0];
    assert_eq!([c.hpos, c.vpos], [0, 0]);
    assert_eq!([c.w, c.h], [35, 8]);
}

#[test]
fn scenario_area_too_wide() {
    let mut term = Term::new(0, 500, 500);
    assert!(term
        .container(
            &[0, 0],
            Pos::Start,
            Pos::Start,
            Pos::Value(0),
            Area::Values { w: 35, h: 8 },
            Border::Empty,
            Padding::Empty,
        )
        .is_ok());
    let r = term.container(
        &[0, 1],
        Pos::Value(0),
        Pos::Value(100),
        Pos::Value(0),
        Area::Values { w: 8354, h: 3 },
        Border::Empty,
        Padding::Empty,
    );
    assert!(matches!(
        r,
        Err(TreeError::SpaceError(SpaceError::AreaOutOfBounds))
    ));
    assert_eq!(term.containers.len(), 1);
}

#[test]
fn scenario_explicit_origin() {
    let mut term = Term::new(0, 500, 500);
    let r = term.container(
        &[0, 0],
        Pos::Value(2),
        Pos::Value(5),
        Pos::Value(0),
        Area::Values { w: 24, h: 32 },
        Border::Empty,
        Padding::Empty,
    );
    assert!(r.is_ok());
    let mut other = Term::new(0, 500, 500);
    let r = other.container(
        &[0, 0],
        Pos::Value(8355),
        Pos::Value(5),
        Pos::Value(0),
        Area::Values { w: 24, h: 32 },
        Border::Empty,
        Padding::Empty,
    );
    assert!(matches!(
        r,
        Err(TreeError::SpaceError(SpaceError::OriginOutOfBounds))
    ));
    assert_eq!(other.containers.len(), 0);
}

#[test]
fn scenario_editable_odd_id() {
    let mut term = Term::new(0, 500, 500);
    assert!(term
        .container(
            &[0, 0],
            Pos::Start,
            Pos::Start,
            Pos::Value(0),
            Area::Values { w: 43, h: 16 },
            Border::Empty,
            Padding::Empty,
        )
        .is_ok());
    let r = term.input(
        &[0, 0, 1],
        Pos::Start,
        Pos::Start,
        Pos::Value(0),
        Area::Values { w: 4, h: 1 },
        Border::Empty,
        Padding::Empty,
    );
    assert!(matches!(r, Err(TreeError::IdError(IdError::KindMismatch))));
    let mut t = Text::default();
    t.id = [0, 0, 1];
    assert!(matches!(
        term.push_input(t),
        Err((_, TreeError::IdError(IdError::KindMismatch)))
    ));
    assert_eq!(term.tlen(), 0);
}

#[test]
fn scenario_value_too_long() {
    let mut term = Term::new(0, 500, 500);
    assert!(term
        .container(
            &[0, 0],
            Pos::Start,
            Pos::Start,
            Pos::Value(0),
            Area::Values { w: 2, h: 2 },
            Border::Empty,
            Padding::Empty,
        )
        .is_ok());
    let value = vec![Some('h'), Some('e'), Some('l'), Some('l'), Some('o')];
    let r = term.noedit(
        &[0, 0, 1],
        Pos::Start,
        Pos::Start,
        Pos::Value(0),
        Area::Fill,
        Border::Empty,
        Padding::Empty,
        &value,
    );
    assert!(matches!(r, Err(TreeError::BadValue)));
    let r = term.noedit(
        &[0, 0, 1],
        Pos::Start,
        Pos::Start,
        Pos::Value(0),
        Area::Fill,
        Border::Empty,
        Padding::Empty,
        &value[..4],
    );
    assert!(r.is_ok());
    let t = &term.containers[0].texts[0];
    assert_eq!(t.value, vec![Some('h'), Some('e'), Some('l'), Some('l')]);
    assert!(!t.editable);
}

#[test]
fn scenario_focus_missing_keeps_focus() {
    let mut term = Term::new(0, 100, 100);
    assert!(term
        .container(
            &[0, 0],
            Pos::Value(10),
            Pos::Value(20),
            Pos::Value(0),
            Area::Values { w: 30, h: 10 },
            Border::Empty,
            Padding::Empty,
        )
        .is_ok());
    assert!(term
        .input(
            &[0, 0, 2],
            Pos::Value(3),
            Pos::Value(4),
            Pos::Value(0),
            Area::Values { w: 5, h: 1 },
            Border::Empty,
            Padding::Empty,
        )
        .is_ok());
    assert!(term.focus(&[0, 0, 2]).is_ok());
    assert!(matches!(term.focus(&[0, 0, 4]), Err(TreeError::BadID)));
    assert!(matches!(term.focus(&[0, 9, 2]), Err(TreeError::BadID)));
    assert!(term.containers[0].texts[0].is_focused());
    assert!(term.containers[0].is_focused());
    assert_eq!(term.focused().unwrap(), [13, 24]);
    assert_eq!([term.crsh, term.crsv], [13, 24]);
}

#[test]
fn duplicate_ids_refused() {
    let mut term = Term::new(0, 100, 100);
    let make = |term: &mut Term, x: u16| {
        term.container(
            &[0, 3],
            Pos::Value(x),
            Pos::Value(0),
            Pos::Value(0),
            Area::Values { w: 5, h: 5 },
            Border::Empty,
            Padding::Empty,
        )
    };
    assert!(make(&mut term, 0).is_ok());
    assert!(matches!(
        make(&mut term, 50),
        Err(TreeError::IdError(IdError::IdAlreadyTaken))
    ));
    assert_eq!(term.containers.len(), 1);
    assert_eq!(term.containers[0].hpos, 0);

    let field = |term: &mut Term, x: u16| {
        term.input(
            &[0, 3, 0],
            Pos::Value(x),
            Pos::Start,
            Pos::Value(0),
            Area::Values { w: 1, h: 1 },
            Border::Empty,
            Padding::Empty,
        )
    };
    assert!(field(&mut term, 0).is_ok());
    assert!(matches!(
        field(&mut term, 3),
        Err(TreeError::IdError(IdError::IdAlreadyTaken))
    ));
    assert_eq!(term.tlen(), 1);

    let mut tree = ComponentTree::new(10, 10);
    assert!(matches!(
        tree.term_from_id(0),
        Err(TreeError::IdError(IdError::IdAlreadyTaken))
    ));
    assert_eq!(tree.len(), 1);
}

#[test]
fn containment_on_both_axes() {
    let mut term = Term::new(0, 20, 10);
    let padded = Padding::outer(1, 1, 1, 1);
    // content 16 x 6 plus border 2 plus padding 2 = 20 x 10: fits exactly
    assert!(term
        .container(
            &[0, 0],
            Pos::Start,
            Pos::Start,
            Pos::Value(0),
            Area::Values { w: 16, h: 6 },
            Border::Uniform('#'),
            padded,
        )
        .is_ok());
    let mut other = Term::new(0, 20, 10);
    // one cell more in height: the area no longer fits
    assert!(matches!(
        other.container(
            &[0, 0],
            Pos::Start,
            Pos::Start,
            Pos::Value(0),
            Area::Values { w: 16, h: 7 },
            Border::Uniform('#'),
            padded,
        ),
        Err(TreeError::SpaceError(SpaceError::AreaOutOfBounds))
    ));
    // a narrow box moved one cell too far right
    assert!(matches!(
        other.container(
            &[0, 1],
            Pos::Value(16),
            Pos::Start,
            Pos::Value(0),
            Area::Values { w: 5, h: 1 },
            Border::Empty,
            Padding::Empty,
        ),
        Err(TreeError::SpaceError(SpaceError::OriginOutOfBounds))
    ));
    assert!(other
        .container(
            &[0, 1],
            Pos::Value(15),
            Pos::Start,
            Pos::Value(0),
            Area::Values { w: 5, h: 1 },
            Border::Empty,
            Padding::Empty,
        )
        .is_ok());
}

#[test]
fn overlapping_siblings_refused() {
    let mut term = Term::new(0, 100, 100);
    let place = |term: &mut Term, id: u8, x: u16, y: u16| {
        term.container(
            &[0, id],
            Pos::Value(x),
            Pos::Value(y),
            Pos::Value(0),
            Area::Values { w: 10, h: 10 },
            Border::Empty,
            Padding::Empty,
        )
    };
    assert!(place(&mut term, 0, 10, 10).is_ok());
    assert!(matches!(
        place(&mut term, 1, 19, 19),
        Err(TreeError::BoundsNotRespected)
    ));
    // touching edges do not overlap
    assert!(place(&mut term, 1, 20, 10).is_ok());
    assert!(place(&mut term, 2, 10, 20).is_ok());
    // overlapping on one axis only is no conflict
    assert!(place(&mut term, 3, 30, 15).is_ok());
    assert_eq!(term.containers.len(), 4);
}

#[test]
fn parity_follows_kind() {
    let mut term = Term::new(0, 100, 100);
    assert!(term
        .container(
            &[0, 0],
            Pos::Start,
            Pos::Start,
            Pos::Value(0),
            Area::Values { w: 50, h: 50 },
            Border::Empty,
            Padding::Empty,
        )
        .is_ok());
    assert!(term
        .input(
            &[0, 0, 4],
            Pos::Start,
            Pos::Start,
            Pos::Value(0),
            Area::Values { w: 2, h: 1 },
            Border::Empty,
            Padding::Empty,
        )
        .is_ok());
    assert!(matches!(
        term.noedit(
            &[0, 0, 6],
            Pos::End,
            Pos::End,
            Pos::Value(0),
            Area::Values { w: 2, h: 1 },
            Border::Empty,
            Padding::Empty,
            &[],
        ),
        Err(TreeError::IdError(IdError::KindMismatch))
    ));
    let mut ro = Text::default();
    ro.id = [0, 0, 7];
    ro.hpos = 10;
    // still marked editable: refused
    let ro = match term.push_noedit(ro) {
        Err((ro, TreeError::IdError(IdError::KindMismatch))) => ro,
        _ => panic!("an editable field with an odd id must be refused"),
    };
    let mut ro = ro;
    ro.editable = false;
    assert!(term.push_noedit(ro).is_ok());
    let mut wrong = Text::default();
    wrong.id = [0, 0, 8];
    wrong.hpos = 20;
    wrong.editable = false;
    assert!(matches!(
        term.push_input(wrong),
        Err((_, TreeError::IdError(IdError::KindMismatch)))
    ));
    for t in &term.containers[0].texts {
        assert_eq!(t.id[2] % 2 == 0, t.editable);
    }
    assert_eq!(term.ilen(), 1);
    assert_eq!(term.nelen(), 1);
}

#[test]
fn absolute_origin_with_decoration() {
    let mut term = Term::new(0, 100, 100);
    assert!(term
        .container(
            &[0, 0],
            Pos::Value(3),
            Pos::Value(4),
            Pos::Value(0),
            Area::Values { w: 20, h: 10 },
            Border::Uniform('+'),
            Padding::inner(1, 1, 2, 2),
        )
        .is_ok());
    assert!(term
        .input(
            &[0, 0, 0],
            Pos::Value(1),
            Pos::Value(1),
            Pos::Value(0),
            Area::Values { w: 3, h: 1 },
            Border::Empty,
            Padding::Empty,
        )
        .is_ok());
    let t = &term.containers[0].texts[0];
    // 3 + border 1 + inner left 2 + 1, and 4 + border 1 + inner top 1 + 1
    assert_eq!([t.ahpos, t.avpos], [7, 7]);
    let again = ragout::geometry::calc_text_abs_ori(
        3,
        4,
        &Border::Uniform('+'),
        &Padding::inner(1, 1, 2, 2),
        1,
        1,
    );
    assert_eq!(again, [7, 7]);
    assert_eq!(
        again,
        ragout::geometry::calc_text_abs_ori(
            3,
            4,
            &Border::Uniform('+'),
            &Padding::inner(1, 1, 2, 2),
            1,
            1,
        )
    );
}

#[test]
fn anchors_resolve_against_decorated_size() {
    let mut term = Term::new(0, 40, 20);
    assert!(term
        .container(
            &[0, 0],
            Pos::End,
            Pos::Center,
            Pos::Value(0),
            Area::Values { w: 10, h: 4 },
            Border::Uniform('*'),
            Padding::Empty,
        )
        .is_ok());
    let c = &term.containers[0];
    // decorated 12 x 6: end of 40 is 28, center of 20 is 7
    assert_eq!([c.hpos, c.vpos], [28, 7]);
}

#[test]
fn manual_border_must_fit_padding() {
    let mut term = Term::new(0, 40, 20);
    let open_corner = Border::Manual {
        top: Some('-'),
        bottom: None,
        left: Some('|'),
        right: None,
        top_left: None,
        top_right: None,
        bottom_left: None,
        bottom_right: None,
    };
    assert!(matches!(
        term.container(
            &[0, 0],
            Pos::Start,
            Pos::Start,
            Pos::Value(0),
            Area::Values { w: 4, h: 4 },
            open_corner,
            Padding::Empty,
        ),
        Err(TreeError::BoundsNotRespected)
    ));
    let closed = Border::Manual {
        top: Some('-'),
        bottom: None,
        left: Some('|'),
        right: None,
        top_left: Some('+'),
        top_right: None,
        bottom_left: None,
        bottom_right: None,
    };
    assert!(matches!(
        term.container(
            &[0, 0],
            Pos::Start,
            Pos::Start,
            Pos::Value(0),
            Area::Values { w: 4, h: 4 },
            closed,
            Padding::inner(0, 1, 0, 0),
        ),
        Err(TreeError::BoundsNotRespected)
    ));
    assert!(term
        .container(
            &[0, 0],
            Pos::Start,
            Pos::Start,
            Pos::Value(0),
            Area::Values { w: 4, h: 4 },
            closed,
            Padding::inner(1, 0, 0, 1),
        )
        .is_ok());
    // one border cell and one padding cell on the top and left edges
    let c = &term.containers[0];
    assert_eq!([c.w, c.h], [4, 4]);
}

#[test]
fn missing_parent_refused() {
    let mut term = Term::new(0, 40, 20);
    assert!(matches!(
        term.input(
            &[0, 5, 0],
            Pos::Start,
            Pos::Start,
            Pos::Value(0),
            Area::Zero,
            Border::Empty,
            Padding::Empty,
        ),
        Err(TreeError::ParentNotFound)
    ));
    let mut t = Text::default();
    t.id = [0, 5, 1];
    t.editable = false;
    assert!(matches!(
        term.push_noedit(t),
        Err((_, TreeError::ParentNotFound))
    ));
    // a container must carry its window's id
    assert!(matches!(
        term.container(
            &[1, 0],
            Pos::Start,
            Pos::Start,
            Pos::Value(0),
            Area::Zero,
            Border::Empty,
            Padding::Empty,
        ),
        Err(TreeError::ParentNotFound)
    ));
    let foreign = Container::new([3, 0], 0, 0, 1, 1, Border::Empty, Padding::Empty);
    assert!(matches!(
        term.push_container(foreign),
        Err((_, TreeError::ParentNotFound))
    ));
    assert_eq!(term.containers.len(), 0);
}

#[test]
fn tree_sources_and_focus_chain() {
    let mut tree = ComponentTree::new(50, 20);
    let builder = ragout::TermBuilder::new().id(3).area(Area::Fill);
    assert!(tree.term(TermSource::ByBuilder(builder)).is_ok());
    assert!(tree.term(TermSource::ById(3)).is_err());
    assert!(tree.term(TermSource::ById(4)).is_ok());
    let mut existing = Term::new(9, 10, 10);
    existing.containers.push(Container::new(
        [9, 0],
        8,
        8,
        5,
        5,
        Border::Empty,
        Padding::Empty,
    ));
    match tree.term(TermSource::ByValue(existing)) {
        Err(TreeError::InitError(ragout::InitError::InvalidTerm { term })) => {
            assert_eq!(term.id, 9)
        }
        _ => panic!("a window whose container overflows it must be refused"),
    }
    assert_eq!(tree.len(), 3);
    assert_eq!(tree.term_ref(3).unwrap().w, 50);
    assert!(matches!(
        tree.focused_extended(),
        Err(TreeError::NoFocusedContainer { tid: 0 })
    ));
    assert!(tree.remove(3).is_some());
    assert!(tree.remove(3).is_none());
    assert_eq!(tree.len(), 2);
}

#[test]
fn tree_resize_all_or_nothing() {
    let mut tree = ComponentTree::new(50, 20);
    let mut t = Term::new(1, 50, 20);
    assert!(t
        .container(
            &[1, 0],
            Pos::Value(30),
            Pos::Start,
            Pos::Value(0),
            Area::Values { w: 10, h: 5 },
            Border::Empty,
            Padding::Empty,
        )
        .is_ok());
    assert!(tree.term_from_existing(t).is_ok());
    assert!(matches!(
        tree.resize(39, 20),
        Err(TreeError::BoundsNotRespected)
    ));
    assert_eq!(tree.term_ref(1).unwrap().w, 50);
    assert!(tree.resize(40, 5).is_ok());
    assert_eq!(tree.term_ref(0).unwrap().w, 40);
    assert_eq!(tree.term_ref(1).unwrap().h, 5);
}

#[test]
fn focus_reports_extended_id() {
    let mut tree = ComponentTree::new(50, 20);
    let mut t = Term::new(2, 50, 20);
    assert!(t
        .container(
            &[2, 1],
            Pos::Start,
            Pos::Start,
            Pos::Value(0),
            Area::Values { w: 10, h: 5 },
            Border::Empty,
            Padding::Empty,
        )
        .is_ok());
    assert!(t
        .input(
            &[2, 1, 6],
            Pos::Start,
            Pos::Start,
            Pos::Value(0),
            Area::Values { w: 3, h: 1 },
            Border::Empty,
            Padding::Empty,
        )
        .is_ok());
    assert!(t.focus(&[2, 1, 6]).is_ok());
    assert!(tree.term_from_existing(t).is_ok());
    assert!(tree.focus(2).is_ok());
    assert!(!tree.term_ref(0).unwrap().is_focused());
    assert_eq!(tree.focused_extended().unwrap(), [2, 1, 6]);
}

#[test]
fn focus_errors() {
    let mut term = Term::new(0, 30, 30);
    assert!(matches!(term.sync_cursor(), Err(TreeError::NoFocusedComp)));
    assert!(matches!(term.focused(), Err(TreeError::BadID)));

    let mut tree = ComponentTree::new(30, 30);
    assert!(tree.remove(0).is_some());
    assert!(matches!(tree.focused(), Err(TreeError::NoFocusedTerm)));
    assert!(matches!(tree.focused_extended(), Err(TreeError::NoFocusedComp)));

    let c = Container::new([1, 0], 0, 0, 5, 5, Border::Empty, Padding::Empty);
    let mut t = Term::new(1, 30, 30);
    assert!(t.push_container(c).is_ok());
    t.containers[0].attributes.insert("focused");
    assert!(tree.term_from_existing(t).is_ok());
    assert!(tree.focus(1).is_ok());
    assert!(matches!(
        tree.focused_extended(),
        Err(TreeError::NoFocusedText { cid: [1, 0] })
    ));

    let mut b = ragout::TermBuilder::new().id(1);
    assert!(matches!(
        tree.term_from_builder(&mut b),
        Err(TreeError::InitError(ragout::InitError::TermNotMade))
    ));
    assert_eq!(b.id, 1);
    assert!(tree.term_from_builder(&mut b.id(2)).is_ok());
}

#[test]
fn validation_outcomes() {
    use_validation(&Term::new(0, 10, 5));
}

fn use_validation(term: &Term) {
    let at = |x: u16, y: u16| ragout::Position { x, y };
    assert_eq!(term.layout_is_valid(&[11, 6], &at(0, 0)), Err(ValidationError::WHOverflow));
    assert_eq!(term.layout_is_valid(&[11, 5], &at(0, 0)), Err(ValidationError::WidthOverflow));
    assert_eq!(term.layout_is_valid(&[10, 6], &at(0, 0)), Err(ValidationError::HeightOverflow));
    assert_eq!(term.layout_is_valid(&[10, 5], &at(1, 0)), Err(ValidationError::XOutofBounds));
    assert_eq!(term.layout_is_valid(&[10, 5], &at(0, 1)), Err(ValidationError::YOutOfBounds));
    assert_eq!(term.layout_is_valid(&[10, 5], &at(0, 0)), Ok(()));
    let c = Container::new([0, 0], 0, 0, 4, 4, Border::Empty, Padding::Empty);
    assert_eq!(c.layout_is_valid(&[2, 2], &at(2, 2)), Ok(()));
    assert_eq!(c.layout_is_valid(&[2, 2], &at(3, 2)), Err(ValidationError::XOutofBounds));
    assert!(term.check_area_origin(&Container::new([0, 1], 8, 0, 3, 1, Border::Empty, Padding::Empty)));
    assert!(!term.check_area_origin_scrollable(&Container::new([0, 1], 7, 4, 3, 9, Border::Empty, Padding::Empty)));
}

#[test]
fn pushed_components_drop_focus() {
    let mut term = Term::new(0, 40, 20);
    let mut c = Container::new([0, 0], 0, 0, 20, 10, Border::Empty, Padding::Empty);
    let mut t = Text::default();
    t.id = [0, 0, 0];
    t.w = 2;
    t.h = 1;
    t.value = vec![None, None];
    assert!(c.push_text(t).is_ok());
    c.texts[0].attributes.insert("focused");
    c.attributes.insert("focused");
    assert!(term.push_container(c).is_ok());
    assert!(!term.containers[0].is_focused());
    assert!(!term.containers[0].texts[0].is_focused());

    let mut held = Text::default();
    held.id = [0, 0, 2];
    held.hpos = 5;
    held.attributes.insert("focused");
    held.attributes.insert("hidden");
    assert!(term.push_input(held).is_ok());
    let pushed = &term.containers[0].texts[1];
    assert!(!pushed.is_focused());
    assert!(pushed.has_attribute("hidden"));
    assert!(term.focused().is_err());

    assert!(term.focus(&[0, 0, 2]).is_ok());
    assert!(term.focus(&[0, 0, 0]).is_ok());
    assert!(term.containers[0].texts[0].is_focused());
    assert!(!term.containers[0].texts[1].is_focused());
}

#[test]
fn window_with_two_focus_holders_refused() {
    let mut t = Term::new(4, 40, 20);
    assert!(t
        .container(
            &[4, 0],
            Pos::Start,
            Pos::Start,
            Pos::Value(0),
            Area::Values { w: 10, h: 5 },
            Border::Empty,
            Padding::Empty,
        )
        .is_ok());
    for (id, x) in [(0u8, 0u16), (2, 4)] {
        assert!(t
            .input(
                &[4, 0, id],
                Pos::Value(x),
                Pos::Start,
                Pos::Value(0),
                Area::Values { w: 2, h: 1 },
                Border::Empty,
                Padding::Empty,
            )
            .is_ok());
    }
    assert!(t.single_focus());
    t.containers[0].texts[0].attributes.insert("focused");
    t.containers[0].texts[1].attributes.insert("focused");
    assert!(!t.single_focus());
    let mut tree = ComponentTree::new(40, 20);
    assert!(matches!(
        tree.term_from_existing(t),
        Err(TreeError::InitError(ragout::InitError::InvalidTerm { .. }))
    ));
    assert!(tree.grandchild_ref([4, 0]).is_none());
    assert!(tree.grandchild_ref([0, 0]).is_none());
}
