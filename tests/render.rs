use svg_device::canvas::{element, render_document, Canvas, Primitive};
use svg_device::color::i32_to_csscolor;
use svg_device::element::{
    circle_element, fill_rule, line_element, path_element, polygon_element, polyline_element,
    rect_element, stroke_width_of, text_element, GraphicsContext, Point,
};
use svg_device::number::format_fixed3;

fn gc() -> GraphicsContext {
    // red stroke, opaque; blue fill, half transparent; line width 1
    GraphicsContext::new(0xff0000ffu32 as i32, 0x80ff0000u32 as i32, 1000)
}

#[test]
fn color_channels_in_reverse_byte_order() {
    assert_eq!(i32_to_csscolor(0x12345678), "rgba(120, 86, 52, 18)");
}

#[test]
fn color_negative_packed_value() {
    assert_eq!(i32_to_csscolor(-1), "rgba(255, 255, 255, 255)");
    assert_eq!(i32_to_csscolor(0xff0000ffu32 as i32), "rgba(255, 0, 0, 255)");
    assert_eq!(i32_to_csscolor(0), "rgba(0, 0, 0, 0)");
}

#[test]
fn color_round_trip_on_packed_channels() {
    for &(r, g, b, a) in &[(0u32, 0u32, 0u32, 0u32), (1, 2, 3, 4), (255, 128, 7, 200)] {
        let packed = (a << 24) | (b << 16) | (g << 8) | r;
        assert_eq!(
            i32_to_csscolor(packed as i32),
            format!("rgba({}, {}, {}, {})", r, g, b, a)
        );
    }
}

#[test]
fn fixed_three_decimals() {
    assert_eq!(format_fixed3(0), "0.000");
    assert_eq!(format_fixed3(1), "0.001");
    assert_eq!(format_fixed3(-1), "-0.001");
    assert_eq!(format_fixed3(12345), "12.345");
    assert_eq!(format_fixed3(-30000), "-30.000");
    assert_eq!(format_fixed3(1000050), "1000.050");
    assert_eq!(format_fixed3(i64::MIN), "-9223372036854775.808");
    assert_eq!(format_fixed3(i64::MAX), "9223372036854775.807");
}

#[test]
fn circle_exact() {
    let s = circle_element(Point::new(10500, -2000), 3000, gc());
    assert_eq!(
        s,
        r#"<circle cx="10.500" cy="-2.000" r="3.000" stroke="rgba(255, 0, 0, 255)" fill="rgba(0, 0, 255, 128)" />"#
    );
}

#[test]
fn line_never_filled() {
    let s = line_element(Point::new(0, 0), Point::new(1000, 2000), gc());
    assert_eq!(
        s,
        r#"<line x1="0.000" y1="0.000" x2="1.000" y2="2.000" stroke="rgba(255, 0, 0, 255)" fill="none" />"#
    );
}

#[test]
fn polyline_points() {
    let ps = vec![Point::new(0, 0), Point::new(1500, 2250), Point::new(-1, 3)];
    assert_eq!(
        polyline_element(&ps, gc()),
        r#"<polyline points="0.000,0.000 1.500,2.250 -0.001,0.003" stroke="rgba(255, 0, 0, 255)" fill="none" />"#
    );
}

#[test]
fn polygon_points_filled() {
    let ps = vec![Point::new(0, 0), Point::new(1000, 0), Point::new(1000, 1000)];
    assert_eq!(
        polygon_element(&ps, gc()),
        r#"<polygon points="0.000,0.000 1.000,0.000 1.000,1.000" stroke="rgba(255, 0, 0, 255)" fill="rgba(0, 0, 255, 128)" />"#
    );
}

#[test]
fn zero_points_give_empty_attribute() {
    let none: Vec<Point> = Vec::new();
    assert_eq!(
        polyline_element(&none, gc()),
        r#"<polyline points="" stroke="rgba(255, 0, 0, 255)" fill="none" />"#
    );
    assert_eq!(
        polygon_element(&none, gc()),
        r#"<polygon points="" stroke="rgba(255, 0, 0, 255)" fill="rgba(0, 0, 255, 128)" />"#
    );
    let no_contours: Vec<Vec<Point>> = Vec::new();
    assert!(path_element(&no_contours, true, gc()).starts_with(r#"<path d="" "#));
}

#[test]
fn rect_corner_order_does_not_matter() {
    let expected = r#"<rect x="0.000" y="0.000" width="10.000" height="10.000" stroke="rgba(255, 0, 0, 255)" fill="rgba(0, 0, 255, 128)" />"#;
    assert_eq!(rect_element(Point::new(10000, 10000), Point::new(0, 0), gc()), expected);
    assert_eq!(rect_element(Point::new(0, 0), Point::new(10000, 10000), gc()), expected);
    assert_eq!(rect_element(Point::new(0, 10000), Point::new(10000, 0), gc()), expected);
}

#[test]
fn rect_extreme_corners() {
    let s = rect_element(Point::new(i64::MIN, 0), Point::new(i64::MAX, 0), gc());
    assert!(s.starts_with(
        r#"<rect x="-9223372036854775.808" y="0.000" width="18446744073709551.615" height="0.000""#
    ));
}

#[test]
fn path_two_subpaths() {
    let sps = vec![
        vec![Point::new(0, 0), Point::new(1000, 0), Point::new(1000, 1000)],
        vec![
            Point::new(2000, 2000),
            Point::new(3000, 2000),
            Point::new(3000, 3000),
            Point::new(2000, 3000),
        ],
    ];
    let s = path_element(&sps, true, gc());
    assert_eq!(
        s,
        r#"<path d="M 0.000 0.000 L 1.000 0.000 L 1.000 1.000 Z M 2.000 2.000 L 3.000 2.000 L 3.000 3.000 L 2.000 3.000 Z" stroke="rgba(255, 0, 0, 255)" stroke-width="0.010" fill-rule="nonzero" fill="rgba(0, 0, 255, 128)" />"#
    );
    assert_eq!(s.matches("M ").count(), 2);
    assert_eq!(s.matches(" Z").count(), 2);
    assert_eq!(s.matches(" L ").count(), 5);
}

#[test]
fn path_skips_empty_contours() {
    let sps = vec![vec![], vec![Point::new(1000, 1000)], vec![]];
    let s = path_element(&sps, false, gc());
    assert!(s.starts_with(r#"<path d="M 1.000 1.000 Z" "#));
}

#[test]
fn fill_rule_mapping() {
    assert_eq!(fill_rule(true), "nonzero");
    assert_eq!(fill_rule(false), "evenodd");
    let sps = vec![vec![Point::new(0, 0)]];
    assert!(path_element(&sps, true, gc()).contains(r#"fill-rule="nonzero""#));
    assert!(path_element(&sps, false, gc()).contains(r#"fill-rule="evenodd""#));
}

#[test]
fn stroke_width_divides_by_96() {
    assert_eq!(stroke_width_of(1000), 10);
    assert_eq!(stroke_width_of(96000), 1000);
    assert_eq!(stroke_width_of(47), 0);
    assert_eq!(stroke_width_of(48), 1);
    assert_eq!(stroke_width_of(u64::MAX), u64::MAX / 96 + 1);
}

#[test]
fn text_rotation_sign_flip() {
    let s = text_element(Point::new(5000, 6000), "hi", 30000, 0, gc());
    assert_eq!(
        s,
        r#"<text x="5.000" y="6.000" transform="rotate(-30.000, 5.000, 6.000)" fill="rgba(255, 0, 0, 255)">hi</text>"#
    );
    let s = text_element(Point::new(0, 0), "x", -45500, 500, gc());
    assert!(s.contains("rotate(45.500, 0.000, 0.000)"));
    let s = text_element(Point::new(0, 0), "x", 0, 0, gc());
    assert!(s.contains("rotate(0.000, 0.000, 0.000)"));
}

#[test]
fn text_content_escaped() {
    let s = text_element(Point::new(0, 0), "a<b & \"c\" > é", 0, 0, gc());
    assert!(s.ends_with(r#">a&lt;b &amp; &quot;c&quot; &gt; é</text>"#));
}

#[test]
fn document_empty() {
    let calls: Vec<(Primitive, GraphicsContext)> = Vec::new();
    let lines = render_document(7, 5, &calls);
    assert_eq!(
        lines,
        vec![
            r#"<svg xmlns="http://www.w3.org/2000/svg" viewBox="0 0 504 360" width="504" height="360">"#.to_string(),
            "</svg>".to_string(),
        ]
    );
}

#[test]
fn document_elements_in_call_order() {
    let calls = vec![
        (Primitive::Circle { center: Point::new(1000, 1000), r: 500 }, gc()),
        (Primitive::Line { from: Point::new(0, 0), to: Point::new(1000, 0) }, gc()),
        (Primitive::Polyline { points: vec![] }, gc()),
        (Primitive::Polygon { points: vec![Point::new(0, 0)] }, gc()),
        (Primitive::Rect { from: Point::new(1000, 1000), to: Point::new(0, 0) }, gc()),
        (
            Primitive::Text { pos: Point::new(0, 0), text: "t".to_string(), angle: 90000, hadj: 0 },
            gc(),
        ),
        (Primitive::Path { subpaths: vec![vec![Point::new(0, 0)]], winding: false }, gc()),
    ];
    let lines = render_document(1, 2, &calls);
    assert_eq!(lines.len(), calls.len() + 2);
    assert!(lines[0].starts_with(r#"<svg xmlns="http://www.w3.org/2000/svg" viewBox="0 0 72 144""#));
    for (i, (p, g)) in calls.iter().enumerate() {
        assert_eq!(lines[i + 1], element(p, *g));
    }
    assert!(lines[1].starts_with("<circle"));
    assert!(lines[7].starts_with("<path"));
    assert_eq!(lines.last().unwrap(), "</svg>");
    assert_eq!(lines.iter().filter(|l| l.as_str() == "</svg>").count(), 1);
}

#[test]
fn document_many_calls() {
    let calls: Vec<(Primitive, GraphicsContext)> = (0..1000)
        .map(|i| (Primitive::Circle { center: Point::new(i, i), r: 1 }, gc()))
        .collect();
    let lines = render_document(3, 3, &calls);
    assert_eq!(lines.len(), 1002);
    assert_eq!(lines.iter().filter(|l| l.starts_with("<circle")).count(), 1000);
    assert_eq!(lines[1001], "</svg>");
}

#[test]
fn canvas_close_once() {
    let (mut canvas, head) = Canvas::open(2, 1);
    assert_eq!(
        head,
        r#"<svg xmlns="http://www.w3.org/2000/svg" viewBox="0 0 144 72" width="144" height="72">"#
    );
    assert!(!canvas.closed());
    let drawn = canvas.draw(&Primitive::Line { from: Point::new(0, 0), to: Point::new(1, 1) }, gc());
    assert!(drawn.unwrap().starts_with("<line"));
    assert_eq!(canvas.close(), Some("</svg>".to_string()));
    assert!(canvas.closed());
    assert_eq!(canvas.close(), None);
    assert_eq!(canvas.draw(&Primitive::Polyline { points: vec![] }, gc()), None);
}

#[test]
fn canvas_negative_and_large_sizes() {
    let (_, head) = Canvas::open(i32::MAX, -1);
    assert_eq!(
        head,
        r#"<svg xmlns="http://www.w3.org/2000/svg" viewBox="0 0 154618822584 -72" width="154618822584" height="-72">"#
    );
}
