use tooro_core::panels::AmpSection;
use tooro_core::panels::FXSection;
use tooro_core::panels::ManagerPanel;
use tooro_core::panels::MixerSection;
use tooro_core::panels::MultiPanel;
use tooro_core::panels::Osc2Section;
use tooro_core::panels::SoundPanel;
use tooro_core::params::MultiParameter;
use tooro_core::params::MultiParameterValues;
use tooro_core::params::SoundParameter;
use tooro_core::params::SoundParameterValues;

#[test]
fn sections_list_their_parameters_in_display_order() {
    let mut values = SoundParameterValues::new();
    values.insert(SoundParameter::Osc2Coarse, -7);
    values.insert(SoundParameter::Osc2Level, 255);
    let rows = Osc2Section::new().view_rows(&values);
    let params: Vec<SoundParameter> = rows.iter().map(|r| r.0).collect();
    assert_eq!(
        params,
        vec![
            SoundParameter::Osc2Table,
            SoundParameter::Osc2Wave,
            SoundParameter::Osc2Coarse,
            SoundParameter::Osc2Fine,
            SoundParameter::Osc2FMAmount,
            SoundParameter::Osc2FMRate,
            SoundParameter::Osc2Sync,
            SoundParameter::Osc2Level,
        ]
    );
    assert_eq!(rows[2].1, -7);
    assert_eq!(rows[7].1, 255);
    assert_eq!(rows[0].1, 0);
}

#[test]
fn amp_section_reads_its_two_parameters() {
    let mut values = SoundParameterValues::new();
    values.insert(SoundParameter::AmpPan, -64);
    let rows = AmpSection::new().view_rows(&values);
    assert_eq!(rows, vec![(SoundParameter::AmpLevel, 0), (SoundParameter::AmpPan, -64)]);
}

#[test]
fn multi_sections_read_the_multi_table() {
    let mut values = MultiParameterValues::new();
    values.insert(MultiParameter::FXMode, 4);
    values.insert(MultiParameter::BalancePart2, -3);
    let fx = FXSection::new().view_rows(&values);
    assert_eq!(fx[0], (MultiParameter::FXMode, 4));
    assert_eq!(fx.len(), 6);
    let mixer = MixerSection::new().view_rows(&values);
    assert_eq!(mixer[3], (MultiParameter::BalancePart2, -3));
    assert_eq!(mixer.len(), 8);
}

#[test]
fn panels_are_assembled_from_their_sections() {
    let sound = SoundPanel::new();
    let values = SoundParameterValues::new();
    assert_eq!(sound.osc1_section.view_rows(&values).len(), 8);
    assert_eq!(sound.mod_section.view_rows(&values).len(), 8);
    let multi = MultiPanel::new();
    let mvalues = MultiParameterValues::new();
    assert_eq!(multi.midi_section.view_rows(&mvalues).len(), 4);
    let _manager = ManagerPanel::new();
}
