use discord_bots_org::builder::widget::{LargeWidget, SmallWidget};

#[test]
fn test_small_widget() {
    let mut widget = SmallWidget::new(1);
    widget
        .avatar_background("00FF00")
        .left_color("FF0000")
        .left_text_color("FFFFFF")
        .right_color("0F0F0F")
        .right_text_color("F0F0F0");

    let url = widget.build().ok().unwrap();
    assert!(url.contains("avatarbg=00FF00"));
    assert!(url.contains("lefttextcolor=FFFFFF"));
    assert!(url.contains("leftcolor=FF0000"));
    assert!(url.contains("rightcolor=0F0F0F"));
    assert!(url.contains("righttextcolor=F0F0F0"));
    assert!(url.starts_with("https://discordbots.org/api/widget/1.svg?"));
}

#[test]
fn test_large_widget() {
    let mut widget = LargeWidget::new(1);
    widget
        .certified_color("FF0000")
        .data_color("00FF00")
        .label_color("0000FF")
        .middle_color("FFF000")
        .top_color("000FFF")
        .username_color("AAAAAA");

    let url = widget.build().ok().unwrap();
    assert!(url.contains("certifiedcolor=FF0000"));
    assert!(url.contains("datacolor=00FF00"));
    assert!(url.contains("labelcolor=0000FF"));
    assert!(url.contains("middlecolor=FFF000"));
    assert!(url.contains("topcolor=000FFF"));
    assert!(url.contains("usernamecolor=AAAAAA"));
    assert!(url.starts_with("https://discordbots.org/api/widget/1.svg?"));
}

#[test]
fn small_widget_round_trip() {
    let mut widget = SmallWidget::new(270198738570444801);
    widget.left_color("FF0000").left_text_color("FFFFFF");
    let url = widget.build().ok().unwrap();
    assert!(url.starts_with("https://discordbots.org/api/widget/270198738570444801.svg?"));
    assert!(url.contains("leftcolor=FF0000"));
    assert!(url.contains("lefttextcolor=FFFFFF"));
}

#[test]
fn options_keep_their_order_and_last_value() {
    let mut widget = SmallWidget::new(7);
    widget.left_color("111111").right_color("222222").left_color("333333");
    let url = widget.build().ok().unwrap();
    assert_eq!(
        url,
        "https://discordbots.org/api/widget/7.svg?leftcolor=333333&rightcolor=222222"
    );
}

#[test]
fn values_are_form_encoded() {
    let mut widget = LargeWidget::new(2);
    widget.top_color("#FF 00");
    let url = widget.build().ok().unwrap();
    assert_eq!(url, "https://discordbots.org/api/widget/2.svg?topcolor=%23FF+00");
}

#[test]
fn widget_without_options() {
    let url = LargeWidget::new(3).build().ok().unwrap();
    assert!(url.starts_with("https://discordbots.org/api/widget/3.svg"));
}
