use ragout::geometry::{area_conflicts, calc_text_abs_ori, content_offset, rects_conflict, resolve_wh};
use ragout::ids::{contains_id, first_free_id};
use ragout::{
    color_scheme, Area, Attributes, Border, BuilderError, Commissioner, CompId,
    ComponentCoordinates, Container, ContainerBuilder, IdError, IdKind, Layout, LayoutRules,
    Padding, Pos, Properties, Property, ScrollableComponent, Style, TermBuilder, Text,
    TextBuilder,
};

#[test]
fn padding_setters_follow_variant() {
    let p = Padding::inner(1, 2, 3, 4).top(9).bottom(8).right(7).left(6);
    assert_eq!(p, Padding::inner(9, 8, 7, 6));
    let o = Padding::outer(1, 2, 3, 4).left(0);
    assert_eq!(o, Padding::Outer { top: 1, bottom: 2, right: 3, left: 0 });
    assert_eq!(Padding::none().top(5), Padding::Empty);
    let io = Padding::in_out(1, 1, 1, 1, 2, 2, 2, 2)
        .inner_top(5)
        .inner_bottom(6)
        .inner_right(7)
        .inner_left(8);
    assert_eq!(io.sides(), [5, 6, 7, 8, 2, 2, 2, 2]);
    assert_eq!(Padding::inner(1, 1, 1, 1).inner_top(4), Padding::inner(1, 1, 1, 1));
    assert_eq!(Padding::new([1, 2, 3, 4, 5, 6, 7, 8]).sides(), [1, 2, 3, 4, 5, 6, 7, 8]);
    assert!(Padding::none().is_null());
    assert!(Padding::inner(0, 0, 0, 0).is_null());
    assert!(!Padding::outer(0, 0, 1, 0).is_null());
}

#[test]
fn decoration_extras() {
    // border 1 + 1, inner 3 + 4, outer 7 + 8 horizontally
    let p = Padding::in_out(1, 2, 3, 4, 5, 6, 7, 8);
    assert_eq!(resolve_wh(&Border::Uniform('#'), &p), [2 + 3 + 4 + 7 + 8, 2 + 1 + 2 + 5 + 6]);
    assert_eq!(resolve_wh(&Border::Empty, &Padding::Empty), [0, 0]);
    let m = Border::Manual {
        top: Some('-'),
        bottom: None,
        left: None,
        right: Some('|'),
        top_left: None,
        top_right: Some('+'),
        bottom_left: None,
        bottom_right: None,
    };
    assert_eq!(resolve_wh(&m, &Padding::Empty), [1, 1]);
    // left: outer 8 + no border + inner 4; top: outer 5 + border 1 + inner 1
    assert_eq!(content_offset(&m, &p), [12, 7]);
}

#[test]
fn anchors_and_areas() {
    assert_eq!(Pos::Start.point(100, 30), Some(0));
    assert_eq!(Pos::Center.point(100, 30), Some(35));
    assert_eq!(Pos::End.point(100, 30), Some(70));
    assert_eq!(Pos::Value(12).point(100, 300), Some(12));
    assert_eq!(Pos::End.point(10, 11), None);
    assert_eq!(Pos::Center.point(10, 11), None);
    assert_eq!(Area::Fill.unwrap(40, 30), [40, 30]);
    assert_eq!(Area::Zero.unwrap(40, 30), [0, 0]);
    assert_eq!(Area::Values { w: 3, h: 4 }.unwrap(40, 30), [3, 4]);
    assert_eq!(Area::Fill.width(), None);
    assert_eq!(Area::Values { w: 3, h: 4 }.height(), Some(4));
}

#[test]
fn rectangle_conflicts() {
    assert_eq!(area_conflicts(0, 0, 10, 10, 5, 5, 10, 10), [15, 5, 5, 15]);
    assert!(rects_conflict(0, 0, 10, 10, 5, 5, 10, 10));
    assert!(!rects_conflict(0, 0, 10, 10, 10, 0, 10, 10));
    assert!(!rects_conflict(0, 0, 10, 10, 0, 10, 10, 10));
    assert!(!rects_conflict(0, 0, 10, 10, 3, 20, 2, 2));
    assert!(rects_conflict(3, 3, 1, 1, 0, 0, 10, 10));
    assert!(rects_conflict(3, 3, 0, 0, 0, 0, 10, 10));
    assert!(!rects_conflict(10, 3, 0, 0, 0, 0, 10, 10));
    assert_eq!(
        calc_text_abs_ori(10, 20, &Border::Empty, &Padding::outer(1, 0, 0, 2), 3, 4),
        [15, 25]
    );
}

#[test]
fn gap_filling_ids() {
    assert_eq!(first_free_id(&vec![0, 1, 2, 4], 0, 1), Some(3));
    assert_eq!(first_free_id(&vec![4, 2, 0], 0, 2), Some(6));
    assert_eq!(first_free_id(&vec![1, 5], 1, 2), Some(3));
    assert_eq!(first_free_id(&vec![], 1, 2), Some(1));
    let all: Vec<u8> = (0..=255).collect();
    assert_eq!(first_free_id(&all, 0, 1), None);
    let evens: Vec<u8> = (0..=127).map(|x: u8| x * 2).collect();
    assert_eq!(first_free_id(&evens, 0, 2), None);
    assert_eq!(first_free_id(&evens, 1, 2), Some(1));
    assert!(contains_id(&vec![9, 8], 8));
    assert!(!contains_id(&vec![9, 8], 7));
}

#[test]
fn id_kinds() {
    assert!(7u8.is_term());
    assert!([1u8, 2].is_container());
    assert!([1u8, 2, 4].is_input());
    assert!([1u8, 2, 5].is_noedit());
    assert!(![1u8, 2, 5].is_input());
    assert!(!7u8.is_text());
    assert!(!7u8.is_tree());
    assert_eq!(Commissioner::authorize_id(IdKind::Term, &[3]), Ok(3));
    assert_eq!(Commissioner::authorize_id(IdKind::Container, &[3, 4]), Ok(4));
    assert_eq!(Commissioner::authorize_id(IdKind::TextInput, &[3, 4, 6]), Ok(6));
    assert_eq!(Commissioner::authorize_id(IdKind::TextNE, &[3, 4, 7]), Ok(7));
    assert_eq!(
        Commissioner::authorize_id(IdKind::TextInput, &[3, 4, 7]),
        Err(IdError::KindMismatch)
    );
    assert_eq!(
        Commissioner::authorize_id(IdKind::Container, &[3]),
        Err(IdError::KindMismatch)
    );
    assert_eq!(
        Commissioner::authorize_id(IdKind::Term, &[]),
        Err(IdError::KindMismatch)
    );
}

#[test]
fn container_ids_and_removal() {
    let mut c = Container::new([0, 4], 0, 0, 20, 20, Border::Empty, Padding::Empty);
    assert_eq!(c.generate_id(0), Some(0));
    assert_eq!(c.generate_id(1), Some(1));
    for id in [0u8, 2, 1] {
        let mut t = Text::default();
        t.id = [0, 4, id];
        t.editable = id % 2 == 0;
        t.hpos = id as u16;
        assert!(c.push_text(t).is_ok());
    }
    assert_eq!(c.generate_id(0), Some(4));
    assert_eq!(c.generate_id(7), Some(3));
    assert!(c.id_in_use(&[0, 4, 2]));
    assert_eq!(c.child_ref(2).unwrap().hpos, 2);
    assert_eq!(c.remove(2).unwrap().id, [0, 4, 2]);
    assert!(c.remove(2).is_none());
    assert_eq!(c.len(), 2);
    assert_eq!(c.generate_id(0), Some(2));
    assert!(c.is_well_formed());
    c.texts[0].ahpos = 3;
    assert!(!c.is_well_formed());
}

#[test]
fn builders_stage_and_bump() {
    let mut tb = TermBuilder::new().id(4).layout(Layout::Grid).area(Area::Values { w: 9, h: 3 });
    let t = tb.build(80, 24);
    assert_eq!((t.id, t.w, t.h, t.layout), (4, 9, 3, Layout::Grid));
    assert_eq!(tb.id, 5);
    tb.offset_id(255);
    assert_eq!(tb.build(1, 1).id, 255);
    assert_eq!(tb.id, 255);
    assert_eq!(tb.clear(), TermBuilder::new());

    let mut cb = ContainerBuilder::new()
        .area(Area::Values { w: 10, h: 4 })
        .border(Border::Uniform('='))
        .hpos(Pos::End)
        .vpos(Pos::Start)
        .layout(Layout::Canvas)
        .overlay(true)
        .layer(2)
        .padding(Padding::Empty);
    assert_eq!(cb.offset_id(vec![]), Ok(0));
    assert_eq!(cb.offset_id(vec![3]), Ok(1));
    assert_eq!(cb.id(), [3, 0]);
    assert_eq!(cb.offset_id(vec![3, 9]), Ok(2));
    assert_eq!(cb.offset_id(vec![1, 2, 3]), Err(BuilderError::TooManyIds));
    assert_eq!(cb.id(), [3, 9]);
    cb.bump_cid(6);
    cb.bump_tid(1);
    let c = cb.build(50, 20);
    assert_eq!(c.id, [1, 6]);
    // decorated width 12 at the end of 50
    assert_eq!([c.hpos, c.vpos, c.w, c.h], [38, 0, 10, 4]);
    let tiny = cb.build(5, 5);
    assert_eq!([tiny.hpos, tiny.vpos], [0, 0]);

    let mut xb = TextBuilder::new().area(Area::Values { w: 2, h: 2 }).hpos(Pos::Start);
    assert_eq!(xb.offset_id(vec![1, 6, 3]), Err(BuilderError::InvalidInputId));
    assert_eq!(xb.offset_id(vec![1, 6, 4]), Ok(3));
    assert_eq!(xb.offset_id(vec![1, 6, 4, 0]), Err(BuilderError::TooManyIds));
    assert_eq!(xb.cid(), [1, 6]);
    let t = xb.build(10, 10);
    assert_eq!(t.id, [1, 6, 4]);
    assert!(t.editable);
    assert_eq!(t.value.len(), 4);
    assert_eq!([t.hpos, t.vpos], [0, 4]);
    assert_eq!(xb.id(), [1, 6, 6]);
    xb.bump_tid();
    xb.bump_cid();
    assert_eq!(xb.id(), [2, 7, 6]);
}

#[test]
fn builders_into_window() {
    let mut term = ragout::Term::new(1, 50, 20);
    let mut cb = ContainerBuilder::new().area(Area::Values { w: 10, h: 4 });
    cb.bump_tid(1);
    assert!(term.container_from_builder(&mut cb).is_ok());
    assert!(term.container_from_builder(&mut cb).is_err());
    let mut xb = TextBuilder::new().area(Area::Values { w: 2, h: 1 });
    assert!(matches!(
        term.input_from_builder(&mut xb),
        Err(ragout::TreeError::ParentNotFound)
    ));
    assert_eq!(xb.id(), [0, 0, 0]);
    assert_eq!(xb.offset_id(vec![1, 0]), Ok(2));
    assert!(term.input_from_builder(&mut xb).is_ok());
    assert!(term.input_from_builder(&mut xb).is_err());
    assert!(term.noedit_from_builder(&mut xb).is_err());
    assert_eq!(term.tlen(), 1);
    let t = &term.containers[0].texts[0];
    // container centered at (20, 8), field centered in its 10 x 4 content
    assert_eq!([t.hpos, t.vpos, t.ahpos, t.avpos], [4, 1, 24, 9]);
    assert_eq!(term.assign_input_id(1, 0), Some(2));
    assert_eq!(term.assign_noedit_id(1, 0), Some(1));
    assert_eq!(term.assign_noedit_id(1, 5), None);
    assert_eq!(term.assign_container_id(), Some(1));
}

#[test]
fn attributes_set() {
    let mut a = Attributes::new();
    assert!(!a.contains("focused"));
    a.insert("focused");
    a.insert("focused");
    a.insert("hidden");
    assert!(a.contains("focused"));
    assert!(a.contains("hidden"));
    a.remove("focused");
    assert!(!a.contains("focused"));
    assert!(a.contains("hidden"));
    let mut c = Container::default();
    assert!(!c.is_scrollable());
    c.make_scrollable();
    assert!(c.is_scrollable());
    assert!(c.has_attribute("scrollable"));
    c.make_unscrollable();
    assert!(!c.is_scrollable());
}

#[test]
fn properties_bag() {
    let mut p = Properties::new();
    assert!(p.assign("margin", Property::from(3u64)).is_none());
    assert!(p.put("dir".to_string(), Property::from("row".to_string())).is_none());
    assert!(p.contains("margin"));
    assert_eq!(p.len(), 2);
    assert!(matches!(p.grab_ref("margin"), Some(Property::PUInt(3))));
    let old = p.assign("margin", Property::from(-2i64));
    assert!(matches!(old, Some(Property::PUInt(3))));
    assert!(matches!(p.grab_ref("margin"), Some(Property::PInt(-2))));
    assert_eq!(p.len(), 2);
    assert!(matches!(p.discard("dir"), Some(Property::PStr(s)) if s == "row"));
    assert!(p.discard("dir").is_none());
    assert!(!p.contains("dir"));
    assert_eq!(p.len(), 1);
    assert!(Property::from([1u64, 5]).is_range());
    assert!(Property::from('x').is_char());
    assert!(Property::from(true).is_bool());
    assert!(Property::from(vec![Property::from(1u64)]).is_vec());
    assert!(Property::from(Properties::new()).is_map());
    assert!(Property::from(7i64).is_int());
    assert!(Property::from(7u64).is_uint());
    assert!(Property::from("a".to_string()).is_str());
    assert!(!Property::from(7u64).is_int());
}

#[test]
fn layouts() {
    assert_eq!(Layout::from_char('c'), Some(Layout::Canvas));
    assert_eq!(Layout::from_char('f'), Some(Layout::Flex));
    assert_eq!(Layout::from_char('g'), Some(Layout::Grid));
    assert_eq!(Layout::from_char('x'), None);
    let mut c = Container::default();
    assert!(LayoutRules::is_canvas(&c));
    c.layout = Layout::Grid;
    assert!(LayoutRules::is_grid(&c));
    assert!(!LayoutRules::is_flex(&c));
}

#[test]
fn color_scheme_cycles_styles() {
    let styles = [Style::new().bold(), Style::new()];
    let out = color_scheme(&['a', 'b', 'c'], &styles);
    assert_eq!(out, "\x1b[1ma\x1b[0mb\x1b[1mc");
    assert_eq!(color_scheme(&[], &[]), "");
}

#[test]
fn text_buffer_capacity() {
    let t = Text::new(
        [0, 0, 1],
        1,
        2,
        3,
        4,
        3,
        2,
        &[Some('a'), None, Some('b')],
        Border::Empty,
        Padding::Empty,
    );
    assert_eq!(t.value, vec![Some('a'), None, Some('b'), None, None, None]);
    assert!(!t.editable);
    assert_eq!(t.parent(), [0, 0]);
}

#[test]
fn coordinates_of_decorated_box() {
    let mut t = Text::default();
    t.w = 10;
    t.h = 5;
    t.hpos = 2;
    t.vpos = 3;
    t.ahpos = 20;
    t.avpos = 30;
    t.border = Border::Uniform('#');
    t.padding = Padding::in_out(1, 2, 3, 4, 5, 6, 7, 8);
    assert_eq!([t.w(), t.w_ip(), t.w_op(), t.w_b_ip(), t.w_b_p()], [10, 17, 25, 19, 34]);
    assert_eq!([t.h(), t.h_ip(), t.h_ip_b(), t.h_op(), t.h_b_p()], [5, 8, 10, 16, 21]);
    assert_eq!([t.x0(), t.x1(), t.ax0(), t.ax1()], [2, 36, 20, 54]);
    assert_eq!([t.y0(), t.y1(), t.ay0(), t.ay1()], [3, 24, 30, 51]);
    let c = Container::new([0, 0], 4, 6, 8, 2, Border::Empty, Padding::Empty);
    assert_eq!([c.x0(), c.x1(), c.ax0(), c.ay1()], [4, 12, 4, 8]);
}

#[test]
fn padding_conversions() {
    assert_eq!(Padding::from(()), Padding::Empty);
    assert_eq!(Padding::from((1u16, 2u16, 3u16, 4u16)), Padding::inner(1, 2, 3, 4));
    assert_eq!(Padding::from([1u16, 2, 3, 4]), Padding::outer(1, 2, 3, 4));
    assert_eq!(
        Padding::from([1u16, 2, 3, 4, 5, 6, 7, 8]),
        Padding::in_out(1, 2, 3, 4, 5, 6, 7, 8)
    );
}
