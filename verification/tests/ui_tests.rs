use tempest::fetch::station::Station;
use tempest::fetch::types::CacheStats;
use tempest::render::color::RadarMoment;
use tempest::ui::cache_manager::{CacheCommand, CacheManager, CacheManagerMessage};
use tempest::ui::color_legend::{ColorLegend, ColorLegendMessage};
use tempest::ui::elevation_tilt_selector::{ElevationTiltSelector, ElevationTiltSelectorMessage};
use tempest::ui::moment_switcher::{Moment, MomentSwitcher, MomentSwitcherMessage};
use tempest::ui::offline_indicator::{OfflineIndicator, OfflineIndicatorMessage};
use tempest::ui::station_selector::{StationSelector, StationSelectorMessage, MAX_VISIBLE_STATIONS};
use tempest::ui::timeline::{hour_minute, TickEmphasis, TimelineMessage, TimelineState};

fn now() -> i64 {
    chrono::Utc::now().timestamp()
}

/// The scan index a click at `position` (0.0 to 1.0 along the bar) lands on.
fn click_index(position: f32, count: usize) -> usize {
    let pos = position.clamp(0.0, 1.0);
    let new_index = (pos * (count.saturating_sub(1)) as f32).round() as usize;
    new_index.min(count.saturating_sub(1))
}

// ----------------------------------------------------------------- cache manager

#[test]
fn test_default_creation() {
    let manager: CacheManager<()> = CacheManager::default();
    assert!(manager.cache.is_none());
    assert_eq!(manager.stats.total_size, 0);
    assert_eq!(manager.stats.entry_count, 0);
    assert_eq!(manager.max_size_input, "1024");
    assert!(!manager.show_settings);
    assert_eq!(manager.current_max_size_mb, 1024);
    assert!(!manager.clearing);
}

#[test]
fn test_current_max_size_mb() {
    let manager: CacheManager<()> = CacheManager::default();
    assert_eq!(manager.current_max_size_mb(), 1024);
}

#[test]
fn test_show_settings_default() {
    let manager: CacheManager<()> = CacheManager::default();
    assert!(!manager.show_settings());
}

#[test]
fn test_is_clearing_default() {
    let manager: CacheManager<()> = CacheManager::default();
    assert!(!manager.is_clearing());
}

#[test]
fn test_toggle_settings() {
    let mut manager: CacheManager<()> = CacheManager::default();
    assert!(!manager.show_settings());
    manager.update(CacheManagerMessage::ToggleSettings);
    assert!(manager.show_settings());
    manager.update(CacheManagerMessage::ToggleSettings);
    assert!(!manager.show_settings());
}

#[test]
fn test_max_size_changed() {
    let mut manager: CacheManager<()> = CacheManager::default();
    assert_eq!(manager.max_size_input, "1024");
    manager.update(CacheManagerMessage::MaxSizeChanged("2048".to_string()));
    assert_eq!(manager.max_size_input, "2048");
    manager.update(CacheManagerMessage::MaxSizeChanged("".to_string()));
    assert_eq!(manager.max_size_input, "");
    manager.update(CacheManagerMessage::MaxSizeChanged("abc".to_string()));
    assert_eq!(manager.max_size_input, "abc");
}

#[test]
fn test_apply_max_size_valid() {
    let mut manager: CacheManager<()> = CacheManager::default();
    manager.update(CacheManagerMessage::MaxSizeChanged("2048".to_string()));
    assert_eq!(manager.max_size_input, "2048");
    manager.update(CacheManagerMessage::ApplyMaxSize);
    assert_eq!(manager.current_max_size_mb, 2048);
}

#[test]
fn test_apply_max_size_invalid() {
    let mut manager: CacheManager<()> = CacheManager::default();
    manager.update(CacheManagerMessage::MaxSizeChanged("abc".to_string()));
    manager.update(CacheManagerMessage::ApplyMaxSize);
    assert_eq!(manager.current_max_size_mb, 1024);
}

#[test]
fn test_apply_max_size_empty() {
    let mut manager: CacheManager<()> = CacheManager::default();
    manager.update(CacheManagerMessage::MaxSizeChanged("".to_string()));
    manager.update(CacheManagerMessage::ApplyMaxSize);
    assert_eq!(manager.current_max_size_mb, 1024);
}

#[test]
fn apply_max_size_reads_like_str_parse() {
    let mut manager: CacheManager<()> = CacheManager::default();
    for (input, expected) in [("+7", 7u64), ("18446744073709551615", u64::MAX), ("18446744073709551616", u64::MAX), ("-1", u64::MAX), (" 5", u64::MAX)] {
        manager.update(CacheManagerMessage::MaxSizeChanged(input.to_string()));
        manager.update(CacheManagerMessage::ApplyMaxSize);
        assert_eq!(manager.current_max_size_mb, expected, "input {:?}", input);
    }
}

#[test]
fn test_cache_cleared_message() {
    let mut manager = CacheManager::<()> { clearing: true, ..Default::default() };
    assert!(manager.is_clearing());
    manager.update(CacheManagerMessage::CacheCleared);
    assert!(!manager.is_clearing());
}

#[test]
fn test_cache_error_message() {
    let mut manager = CacheManager::<()> { clearing: true, ..Default::default() };
    assert!(manager.is_clearing());
    manager.update(CacheManagerMessage::CacheError("Test error".to_string()));
    assert!(!manager.is_clearing());
}

#[test]
fn test_set_stats() {
    let mut manager: CacheManager<()> = CacheManager::default();
    assert_eq!(manager.stats.entry_count, 0);
    assert_eq!(manager.stats.total_size, 0);
    let custom_stats = CacheStats { entry_count: 100, total_size: 1024 * 1024 * 100, oldest: None, newest: None };
    manager.set_stats(custom_stats);
    assert_eq!(manager.stats.entry_count, 100);
    assert_eq!(manager.stats.total_size, 1024 * 1024 * 100);
}

#[test]
fn clear_is_asked_only_with_a_cache() {
    let mut without: CacheManager<()> = CacheManager::default();
    assert_eq!(without.update(CacheManagerMessage::ClearCache), None);
    assert!(!without.is_clearing());
    let mut with = CacheManager::with_max_size(7u8, 50);
    assert_eq!(with.max_size_input, "50");
    assert_eq!(with.update(CacheManagerMessage::ClearCache), Some(CacheCommand::Clear));
    assert!(with.is_clearing());
    assert_eq!(with.update(CacheManagerMessage::RefreshStats), None);
    assert!(with.is_clearing());
    with.update(CacheManagerMessage::CacheCleared);
    assert!(!with.is_clearing());
    let manager = CacheManager::new(1u8);
    assert_eq!(manager.cache, Some(1u8));
    assert_eq!(manager.current_max_size_mb(), 1024);
}

// ----------------------------------------------------------------- timeline

#[test]
fn test_new_creates_default_state() {
    let timeline = TimelineState::new();
    assert!(timeline.scan_times().is_empty());
    assert_eq!(timeline.current_index(), 0);
    assert!(!timeline.is_playing());
    assert_eq!(timeline.playback_speed(), 1);
    assert!(!timeline.is_looping());
    assert_eq!(timeline.time_range_hours(), 1);
}

#[test]
fn test_play_pause_toggle() {
    let mut timeline = TimelineState::new();
    assert!(!timeline.is_playing());
    timeline.update(TimelineMessage::PlayPauseToggled);
    assert!(timeline.is_playing());
    timeline.update(TimelineMessage::PlayPauseToggled);
    assert!(!timeline.is_playing());
}

#[test]
fn test_speed_change_valid() {
    let mut timeline = TimelineState::new();
    assert_eq!(timeline.playback_speed(), 1);
    timeline.update(TimelineMessage::SpeedChanged(2));
    assert_eq!(timeline.playback_speed(), 2);
    timeline.update(TimelineMessage::SpeedChanged(5));
    assert_eq!(timeline.playback_speed(), 5);
    timeline.update(TimelineMessage::SpeedChanged(10));
    assert_eq!(timeline.playback_speed(), 10);
}

#[test]
fn test_speed_change_invalid() {
    let mut timeline = TimelineState::new();
    assert_eq!(timeline.playback_speed(), 1);
    timeline.update(TimelineMessage::SpeedChanged(3));
    assert_eq!(timeline.playback_speed(), 1);
    timeline.update(TimelineMessage::SpeedChanged(0));
    assert_eq!(timeline.playback_speed(), 1);
}

#[test]
fn test_loop_toggle() {
    let mut timeline = TimelineState::new();
    assert!(!timeline.is_looping());
    timeline.update(TimelineMessage::LoopToggled);
    assert!(timeline.is_looping());
    timeline.update(TimelineMessage::LoopToggled);
    assert!(!timeline.is_looping());
}

#[test]
fn test_time_range_change_valid() {
    let mut timeline = TimelineState::new();
    assert_eq!(timeline.time_range_hours(), 1);
    timeline.update(TimelineMessage::TimeRangeChanged(6));
    assert_eq!(timeline.time_range_hours(), 6);
    timeline.update(TimelineMessage::TimeRangeChanged(24));
    assert_eq!(timeline.time_range_hours(), 24);
}

#[test]
fn test_time_range_change_invalid() {
    let mut timeline = TimelineState::new();
    assert_eq!(timeline.time_range_hours(), 1);
    timeline.update(TimelineMessage::TimeRangeChanged(3));
    assert_eq!(timeline.time_range_hours(), 1);
    timeline.update(TimelineMessage::TimeRangeChanged(12));
    assert_eq!(timeline.time_range_hours(), 1);
}

#[test]
fn test_step_forward() {
    let mut timeline = TimelineState::new();
    let times = vec![now(), now(), now()];
    timeline.update(TimelineMessage::ScanTimesUpdated(times));
    assert_eq!(timeline.current_index(), 0);
    timeline.update(TimelineMessage::StepForward);
    assert_eq!(timeline.current_index(), 1);
    timeline.update(TimelineMessage::StepForward);
    assert_eq!(timeline.current_index(), 2);
    timeline.update(TimelineMessage::StepForward);
    assert_eq!(timeline.current_index(), 2);
}

#[test]
fn test_step_forward_with_loop() {
    let mut timeline = TimelineState::new();
    timeline.update(TimelineMessage::LoopToggled);
    let times = vec![now(), now(), now()];
    timeline.update(TimelineMessage::ScanTimesUpdated(times));
    assert_eq!(timeline.current_index(), 0);
    timeline.update(TimelineMessage::StepForward);
    assert_eq!(timeline.current_index(), 1);
    timeline.update(TimelineMessage::StepForward);
    assert_eq!(timeline.current_index(), 2);
    timeline.update(TimelineMessage::StepForward);
    assert_eq!(timeline.current_index(), 0);
}

#[test]
fn test_step_backward() {
    let mut timeline = TimelineState::new();
    let times = vec![now(), now(), now()];
    timeline.update(TimelineMessage::ScanTimesUpdated(times));
    timeline.update(TimelineMessage::StepForward);
    timeline.update(TimelineMessage::StepForward);
    assert_eq!(timeline.current_index(), 2);
    timeline.update(TimelineMessage::StepBackward);
    assert_eq!(timeline.current_index(), 1);
    timeline.update(TimelineMessage::StepBackward);
    assert_eq!(timeline.current_index(), 0);
    timeline.update(TimelineMessage::StepBackward);
    assert_eq!(timeline.current_index(), 0);
}

#[test]
fn test_step_backward_with_loop() {
    let mut timeline = TimelineState::new();
    timeline.update(TimelineMessage::LoopToggled);
    let times = vec![now(), now(), now()];
    timeline.update(TimelineMessage::ScanTimesUpdated(times));
    assert_eq!(timeline.current_index(), 0);
    timeline.update(TimelineMessage::StepBackward);
    assert_eq!(timeline.current_index(), 2);
}

#[test]
fn test_timeline_click() {
    let mut timeline = TimelineState::new();
    let times = vec![now(), now(), now(), now(), now()];
    timeline.update(TimelineMessage::ScanTimesUpdated(times));
    assert_eq!(timeline.current_index(), 0);
    let n = timeline.scan_count();
    timeline.update(TimelineMessage::TimelineClicked(click_index(0.0, n)));
    assert_eq!(timeline.current_index(), 0);
    timeline.update(TimelineMessage::TimelineClicked(click_index(0.5, n)));
    assert_eq!(timeline.current_index(), 2);
    timeline.update(TimelineMessage::TimelineClicked(click_index(1.0, n)));
    assert_eq!(timeline.current_index(), 4);
}

#[test]
fn test_timeline_click_clamped() {
    let mut timeline = TimelineState::new();
    let times = vec![now(), now()];
    timeline.update(TimelineMessage::ScanTimesUpdated(times));
    let n = timeline.scan_count();
    timeline.update(TimelineMessage::TimelineClicked(click_index(-0.5, n)));
    assert_eq!(timeline.current_index(), 0);
    timeline.update(TimelineMessage::TimelineClicked(click_index(1.5, n)));
    assert_eq!(timeline.current_index(), 1);
    // An index past the end lands on the last scan.
    timeline.update(TimelineMessage::TimelineDragged(99));
    assert_eq!(timeline.current_index(), 1);
}

#[test]
fn test_scan_times_updated_clamp_index() {
    let mut timeline = TimelineState::new();
    let times = vec![now(), now(), now()];
    timeline.update(TimelineMessage::ScanTimesUpdated(times));
    timeline.update(TimelineMessage::StepForward);
    assert_eq!(timeline.current_index(), 1);
    let times = vec![now()];
    timeline.update(TimelineMessage::ScanTimesUpdated(times));
    assert_eq!(timeline.current_index(), 0);
    let times: Vec<i64> = vec![];
    timeline.update(TimelineMessage::ScanTimesUpdated(times));
    assert_eq!(timeline.current_index(), 0);
}

#[test]
fn timeline_forward_then_backward_returns() {
    let mut timeline = TimelineState::new();
    timeline.update(TimelineMessage::ScanTimesUpdated(vec![10, 20, 30, 40]));
    timeline.update(TimelineMessage::StepForward);
    assert_eq!(timeline.current_time(), Some(20));
    timeline.update(TimelineMessage::StepForward);
    timeline.update(TimelineMessage::StepBackward);
    assert_eq!(timeline.current_index(), 1);
}

// ----------------------------------------------------------------- elevation tilts

fn bits(v: &[f32]) -> Vec<u32> {
    v.iter().map(|x| x.to_bits()).collect()
}

#[test]
fn elevation_selection() {
    let mut s = ElevationTiltSelector::new();
    assert!(s.selected_elevation().is_none());
    assert!(s.elevations().is_empty());
    s.set_elevations(bits(&[0.5, 1.5, 2.4]));
    assert_eq!(s.selected_elevation(), Some(0.5f32.to_bits()));
    s.update(ElevationTiltSelectorMessage::SelectElevation(1.5f32.to_bits()));
    assert_eq!(s.selected_elevation(), Some(1.5f32.to_bits()));
    // An angle not offered is ignored.
    s.update(ElevationTiltSelectorMessage::SelectElevation(3.0f32.to_bits()));
    assert_eq!(s.selected_elevation(), Some(1.5f32.to_bits()));
    // A selection still offered is kept; otherwise the first angle is chosen.
    s.set_elevations(bits(&[1.5, 3.0]));
    assert_eq!(s.selected_elevation(), Some(1.5f32.to_bits()));
    s.set_elevations(bits(&[6.0]));
    assert_eq!(s.selected_elevation(), Some(6.0f32.to_bits()));
    s.set_elevations(vec![]);
    assert_eq!(s.selected_elevation(), None);
}

#[test]
fn elevation_compares_as_floats() {
    let mut s = ElevationTiltSelector::with_elevations(bits(&[0.0, f32::NAN]));
    assert_eq!(s.selected_elevation(), Some(0.0f32.to_bits()));
    s.set_elevation((-0.0f32).to_bits());
    assert_eq!(s.selected_elevation(), Some((-0.0f32).to_bits()));
    s.set_elevation(f32::NAN.to_bits());
    assert_eq!(s.selected_elevation(), Some((-0.0f32).to_bits()));
    let d = ElevationTiltSelector::default();
    assert!(d.selected_elevation().is_none());
}

// ----------------------------------------------------------------- stations

fn station(id: &str, name: &str) -> Station {
    Station::new(id, name, 0.0f64.to_bits(), 0.0f64.to_bits(), 0.0f32.to_bits())
}

#[test]
fn station_filter_matches_id_or_name() {
    let all = vec![station("KTLX", "Oklahoma City"), station("KICT", "Wichita"), station("KINX", "Tulsa")];
    let mut s = StationSelector::with_stations(all);
    assert_eq!(s.filtered_stations().len(), 3);
    s.update(StationSelectorMessage::FilterChanged("tl".to_string()));
    let ids: Vec<&str> = s.filtered_stations().iter().map(|x| x.id.as_str()).collect();
    assert_eq!(ids, vec!["KTLX"]);
    s.update(StationSelectorMessage::FilterChanged("TUL".to_string()));
    let ids: Vec<&str> = s.filtered_stations().iter().map(|x| x.id.as_str()).collect();
    assert_eq!(ids, vec!["KINX"]);
    assert_eq!(s.filter_text(), "TUL");
}

#[test]
fn station_selection_is_dropped_when_filtered_out() {
    let all = vec![station("KTLX", "Oklahoma City"), station("KICT", "Wichita")];
    let mut s = StationSelector::with_stations(all);
    s.update(StationSelectorMessage::StationSelected(station("KICT", "Wichita")));
    assert_eq!(s.selected_station().unwrap().id, "KICT");
    s.update(StationSelectorMessage::FilterChanged("wich".to_string()));
    assert_eq!(s.selected_station().unwrap().id, "KICT");
    s.update(StationSelectorMessage::FilterChanged("okla".to_string()));
    assert!(s.selected_station().is_none());
}

#[test]
fn station_list_is_capped() {
    let all: Vec<Station> = (0..20).map(|i| station(&format!("K{:03}", i), "Plains")).collect();
    let mut s = StationSelector::with_stations(all);
    s.update(StationSelectorMessage::FilterChanged("plains".to_string()));
    assert_eq!(s.filtered_stations().len(), MAX_VISIBLE_STATIONS);
    assert_eq!(s.filtered_stations()[0].id, "K000");
    s.update(StationSelectorMessage::FilterChanged(String::new()));
    assert_eq!(s.filtered_stations().len(), MAX_VISIBLE_STATIONS);
}

// ----------------------------------------------------------------- legend, moments, connectivity

#[test]
fn color_legend_labels() {
    let mut legend = ColorLegend::new();
    let (name, unit, lo, hi) = legend.get_label();
    assert_eq!((name.as_str(), unit.as_str()), ("Reflectivity", "dBZ"));
    assert_eq!((f32::from_bits(lo), f32::from_bits(hi)), (-30.0, 70.0));
    legend.update(ColorLegendMessage::SetMoment(RadarMoment::Cc));
    let (name, unit, lo, hi) = legend.get_label();
    assert_eq!((name.as_str(), unit.as_str()), ("Correlation Coefficient", ""));
    assert_eq!((f32::from_bits(lo), f32::from_bits(hi)), (0.0, 1.0));
    legend.set_moment(RadarMoment::Kdp);
    assert_eq!(legend.current_moment(), RadarMoment::Kdp);
    let (_, _, lo, hi) = legend.get_label();
    assert_eq!((f32::from_bits(lo), f32::from_bits(hi)), (-2.0, 10.0));
}

#[test]
fn moment_switcher_selection() {
    let mut switcher = MomentSwitcher::new();
    assert_eq!(switcher.selected_moment(), Moment::REF);
    switcher.update(MomentSwitcherMessage::MomentSelected(Moment::VEL));
    assert_eq!(switcher.selected_moment(), Moment::VEL);
    assert_eq!(Moment::all().len(), 6);
    assert_eq!(Moment::VEL.code(), "VEL");
}

#[test]
fn offline_indicator_status() {
    let mut indicator = OfflineIndicator::default();
    assert!(!indicator.is_online());
    indicator.update(OfflineIndicatorMessage::CheckConnectivity);
    assert!(!indicator.is_online());
    indicator.set_online(true);
    assert!(indicator.is_online());
    assert!(OfflineIndicator::new(true).is_online());
}

#[test]
fn hour_minute_is_utc_time_of_day() {
    assert_eq!(hour_minute(0), "00:00");
    assert_eq!(hour_minute(1_710_504_021), "12:00");
    assert_eq!(hour_minute(1_710_504_021 + 3 * 3600 + 7 * 60), "15:07");
    assert_eq!(hour_minute(-1), "23:59");
    assert_eq!(hour_minute(-86_400), "00:00");
}

#[test]
fn ticks_mark_current_and_neighbours() {
    let mut t = TimelineState::new();
    let times: Vec<i64> = (0..8).map(|k| 1_710_504_000 + k * 300).collect();
    t.update(TimelineMessage::ScanTimesUpdated(times));
    t.update(TimelineMessage::TimelineClicked(3));
    let ticks = t.ticks();
    assert_eq!(ticks.len(), 8);
    let emphasis: Vec<TickEmphasis> = ticks.iter().map(|k| k.emphasis).collect();
    assert_eq!(
        emphasis,
        vec![
            TickEmphasis::Other,
            TickEmphasis::Other,
            TickEmphasis::Near,
            TickEmphasis::Current,
            TickEmphasis::Near,
            TickEmphasis::Other,
            TickEmphasis::Other,
            TickEmphasis::Other,
        ]
    );
    let labeled: Vec<usize> = ticks.iter().filter(|k| k.label.is_some()).map(|k| k.index).collect();
    assert_eq!(labeled, vec![0, 2, 3, 4, 6]);
    assert_eq!(ticks[3].label.as_deref(), Some("12:15"));
    assert!(TimelineState::new().ticks().is_empty());
}

#[test]
fn long_timelines_label_every_sixth() {
    let mut t = TimelineState::new();
    t.update(TimelineMessage::ScanTimesUpdated((0..36).map(|k| k * 60).collect()));
    let labeled: Vec<usize> = t.ticks().iter().filter(|k| k.label.is_some()).map(|k| k.index).collect();
    assert_eq!(labeled, vec![0, 6, 12, 18, 24, 30]);
}

#[test]
fn control_labels() {
    let mut t = TimelineState::new();
    assert_eq!(t.play_pause_label(), "▶ Play");
    assert_eq!(t.loop_label(), "🔁 Loop");
    t.update(TimelineMessage::PlayPauseToggled);
    t.update(TimelineMessage::LoopToggled);
    t.update(TimelineMessage::TimeRangeChanged(6));
    assert_eq!(t.play_pause_label(), "⏸ Pause");
    assert_eq!(t.loop_label(), "🔁 Loop: On");
    let speeds: Vec<String> = t.speed_labels().into_iter().map(|(_, s)| s).collect();
    assert_eq!(speeds, vec!["1x", "2x", "5x", "10x"]);
    let ranges: Vec<(u32, String)> = t.range_labels();
    assert_eq!(ranges, vec![(1, "1h".to_string()), (6, "6h ✓".to_string()), (24, "24h".to_string())]);
}

#[test]
fn station_list_marks_the_chosen_station_and_counts() {
    let all = vec![station("KTLX", "Oklahoma City"), station("KICT", "Wichita"), station("KINX", "Tulsa")];
    let mut s = StationSelector::with_stations(all);
    assert_eq!(s.count_text(), "Showing all 3 stations (scroll to see more)");
    assert!(!s.is_selected(0));
    s.update(StationSelectorMessage::StationSelected(station("KICT", "Wichita")));
    assert!(!s.is_selected(0));
    assert!(s.is_selected(1));
    s.update(StationSelectorMessage::FilterChanged("k".to_string()));
    assert_eq!(s.count_text(), "Found 3 of 3 stations");
    s.update(StationSelectorMessage::FilterChanged("wich".to_string()));
    assert_eq!(s.count_text(), "Found 1 of 3 stations");
    assert!(s.is_selected(0));
}

#[test]
fn cache_manager_labels() {
    let mut m: CacheManager<()> = CacheManager::new(());
    assert_eq!(m.clear_button_label(), "Clear Cache");
    assert_eq!(m.settings_toggle_label(), "▼ Show Settings");
    assert_eq!(m.current_limit_text(), "Current limit: 1024 MB");
    m.update(CacheManagerMessage::ClearCache);
    m.update(CacheManagerMessage::ToggleSettings);
    assert_eq!(m.clear_button_label(), "Clearing...");
    assert_eq!(m.settings_toggle_label(), "▲ Hide Settings");
    m.update(CacheManagerMessage::MaxSizeChanged("250".to_string()));
    m.update(CacheManagerMessage::ApplyMaxSize);
    assert_eq!(m.current_limit_text(), "Current limit: 250 MB");
}

#[test]
fn moment_switcher_labels() {
    let s = MomentSwitcher::with_moment(Moment::VEL);
    assert_eq!(Moment::REF.button_label(), "REF\nReflectivity");
    assert_eq!(Moment::KDP.button_label(), "KDP\nSpec. Diff. Phase");
    assert!(s.is_selected(Moment::VEL));
    assert!(!s.is_selected(Moment::REF));
    assert_eq!(s.selection_text(), "Selected: Velocity (VEL) - Unit: m/s");
    assert_eq!(MomentSwitcher::with_moment(Moment::CC).selection_text(), "Selected: Correlation Coef. (CC) - Unit: ");
}

#[test]
fn legend_title_and_status_text() {
    assert_eq!(ColorLegend::new().title(), "Reflectivity (dBZ)");
    assert_eq!(ColorLegend::with_moment(RadarMoment::Cc).title(), "Correlation Coefficient");
    assert_eq!(ColorLegend::with_moment(RadarMoment::Kdp).title(), "KDP (deg/km)");
    assert_eq!(OfflineIndicator::new(true).status_text(), "Online");
    assert_eq!(OfflineIndicator::new(false).status_text(), "Offline");
}

#[test]
fn legend_range_labels() {
    assert_eq!(ColorLegend::new().range_labels(), ("-30".to_string(), "70".to_string()));
    assert_eq!(ColorLegend::with_moment(RadarMoment::Cc).range_labels(), ("0".to_string(), "1".to_string()));
    assert_eq!(ColorLegend::with_moment(RadarMoment::Velocity).range_labels(), ("-50".to_string(), "50".to_string()));
}
