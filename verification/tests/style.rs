use mushroom_password_manager::ui::style::{
    ButtonAppearance, ButtonType, ContainerAppearance, ContainerStyle, Rgb,
};

fn rgb(red: u8, green: u8, blue: u8) -> Rgb {
    Rgb { red, green, blue }
}

#[test]
fn the_resting_looks_of_the_buttons() {
    let white = rgb(100, 100, 100);
    assert_eq!(
        ButtonType::Primary.active(),
        ButtonAppearance { background: rgb(20, 50, 80), border_radius: 4, text_color: white }
    );
    assert_eq!(
        ButtonType::Secondary.active(),
        ButtonAppearance { background: rgb(30, 30, 30), border_radius: 4, text_color: white }
    );
    assert_eq!(
        ButtonType::Danger.active(),
        ButtonAppearance { background: rgb(80, 20, 20), border_radius: 4, text_color: white }
    );
}

#[test]
fn the_hovered_looks_of_the_buttons() {
    let white = rgb(100, 100, 100);
    assert_eq!(
        ButtonType::Primary.hovered(),
        ButtonAppearance { background: rgb(30, 60, 90), border_radius: 4, text_color: white }
    );
    assert_eq!(
        ButtonType::Secondary.hovered(),
        ButtonAppearance { background: rgb(40, 40, 40), border_radius: 4, text_color: white }
    );
    assert_eq!(
        ButtonType::Danger.hovered(),
        ButtonAppearance { background: rgb(90, 30, 30), border_radius: 4, text_color: white }
    );
}

#[test]
fn hovering_lightens_the_background_alone() {
    for kind in [ButtonType::Primary, ButtonType::Secondary, ButtonType::Danger] {
        let active = kind.active();
        let hovered = kind.hovered();
        assert_eq!(hovered.background.red, active.background.red + 10);
        assert_eq!(hovered.background.green, active.background.green + 10);
        assert_eq!(hovered.background.blue, active.background.blue + 10);
        assert_eq!(hovered, ButtonAppearance { background: hovered.background, ..active });
    }
}

#[test]
fn the_look_of_a_container() {
    assert_eq!(
        ContainerStyle {}.appearance(),
        ContainerAppearance {
            background: rgb(95, 95, 95),
            text_color: rgb(10, 10, 10),
            border_radius: 5,
            border_width: 1,
            border_color: rgb(80, 80, 80),
        }
    );
}

#[test]
fn hundredths_give_the_channel_strengths() {
    let strength = |hundredths: u8| f32::from(hundredths) / 100.0;
    assert_eq!(strength(ButtonType::Primary.active().background.red), 0.2_f32);
    assert_eq!(strength(ButtonType::Primary.active().background.green), 0.5_f32);
    assert_eq!(strength(ButtonType::Primary.active().background.blue), 0.8_f32);
    assert_eq!(strength(ButtonType::Secondary.hovered().background.red), 0.4_f32);
    assert_eq!(strength(ButtonType::Danger.hovered().background.red), 0.9_f32);
    assert_eq!(strength(ContainerStyle {}.appearance().background.red), 0.95_f32);
    assert_eq!(strength(ContainerStyle {}.appearance().text_color.red), 0.1_f32);
    assert_eq!(strength(ButtonType::Danger.active().text_color.blue), 1.0_f32);
    for h in 0..=100u8 {
        let written: f32 = format!("{}.{:02}", h / 100, h % 100).parse().unwrap();
        assert_eq!(strength(h), written);
    }
}
