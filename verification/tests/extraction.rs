use uvfits_rip::error::ExtractError;
use uvfits_rip::group::group_number;
use uvfits_rip::polarization::{select_polarizations, PolarizationMode};
use uvfits_rip::resolver::ParameterTable;
use uvfits_rip::selection::Selection;
use uvfits_rip::tensor::{assemble, read_plan};

/// A synthetic header: a sparse map from key number to parameter name.
fn scan_header(entries: &[(usize, &str)]) -> ParameterTable {
    let mut table = ParameterTable::new();
    loop {
        let key_number = table.next_key_number();
        let entry = entries
            .iter()
            .find(|(k, _)| *k == key_number)
            .map(|(_, name)| name.to_string());
        if !table.feed(entry) {
            break;
        }
    }
    table
}

fn selection(
    num_timesteps: usize,
    num_baselines_per_timestep: usize,
    num_channels: usize,
    rows: Vec<usize>,
) -> Selection {
    Selection::new(num_timesteps, num_baselines_per_timestep, num_channels, rows).unwrap()
}

/// Payload blocks whose pol0-real value at (group, channel) is
/// `group * 100 + channel`; every other float is a filler the extraction
/// must discard.
fn synthetic_blocks(plan: &[u64], num_channels: usize) -> Vec<Vec<u32>> {
    plan.iter()
        .map(|&g| {
            let mut block = Vec::new();
            for ch in 0..num_channels {
                for f in 0..12 {
                    let value: f32 = if f == 0 {
                        (g * 100 + ch as u64) as f32
                    } else {
                        -1.0
                    };
                    block.push(value.to_bits());
                }
            }
            block
        })
        .collect()
}

#[test]
fn offset_formula_concrete() {
    assert_eq!(group_number(0, 0, 4), 1);
    assert_eq!(group_number(0, 3, 4), 4);
    assert_eq!(group_number(1, 0, 4), 5);
    assert_eq!(group_number(1, 3, 4), 8);
    assert_eq!(group_number(2, 5, 7), 5 + 1 + 2 * 7);
}

#[test]
fn offset_is_increasing() {
    // Strictly increasing in the row index for a fixed timestep, and in
    // the timestep for a fixed row.
    for r in 0..9 {
        assert!(group_number(3, r, 10) < group_number(3, r + 1, 10));
    }
    for t in 0..5 {
        assert!(group_number(t, 2, 10) < group_number(t + 1, 2, 10));
    }
}

#[test]
fn resolver_finds_baseline() {
    let table = scan_header(&[(1, "ANTENNA1"), (2, "BASELINE"), (3, "FREQ")]);
    assert_eq!(table.resolve(&"BASELINE".to_string()), Ok(2));
}

#[test]
fn resolver_missing_name() {
    let table = scan_header(&[(1, "ANTENNA1"), (2, "FREQ")]);
    assert_eq!(
        table.resolve(&"BASELINE".to_string()),
        Err(ExtractError::Format)
    );
}

#[test]
fn resolver_stops_at_gap() {
    // Key 2 is absent: the scan ends there, so the name declared at key 3
    // is never seen.
    let table = scan_header(&[(1, "ANTENNA1"), (3, "BASELINE")]);
    assert_eq!(
        table.resolve(&"BASELINE".to_string()),
        Err(ExtractError::Format)
    );
}

#[test]
fn resolver_first_match_wins() {
    let table = scan_header(&[(1, "BASELINE"), (2, "BASELINE")]);
    assert_eq!(table.resolve(&"BASELINE".to_string()), Ok(1));
}

#[test]
fn extraction_deterministic() {
    let sel = selection(2, 4, 2, vec![0, 3]);
    let plan_a = read_plan(&sel);
    let plan_b = read_plan(&sel);
    assert_eq!(plan_a, plan_b);
    let blocks = synthetic_blocks(&plan_a, 2);
    let raw_a = assemble(&sel, &blocks).unwrap();
    let raw_b = assemble(&sel, &blocks).unwrap();
    assert_eq!(raw_a.data, raw_b.data);
}

#[test]
fn output_keeps_row_order_and_duplicates() {
    let sel = selection(1, 10, 1, vec![5, 2, 5]);
    let plan = read_plan(&sel);
    assert_eq!(plan, vec![6, 3, 6]);
    let blocks = synthetic_blocks(&plan, 1);
    let raw = assemble(&sel, &blocks).unwrap();
    let out = select_polarizations(&raw, PolarizationMode::Single);
    assert_eq!(out.num_rows, 3);
    assert_eq!(f32::from_bits(out.value_at(0, 0, 0, 0)), 600.0);
    assert_eq!(f32::from_bits(out.value_at(0, 1, 0, 0)), 300.0);
    assert_eq!(f32::from_bits(out.value_at(0, 2, 0, 0)), 600.0);
}

#[test]
fn polarization_reduction_single_and_dual() {
    // One channel block: 4 polarizations x (real, imaginary, weight).
    let reals = [1.5f32, 2.5, 3.5, 4.5];
    let mut block = Vec::new();
    for (i, &re) in reals.iter().enumerate() {
        block.push(re.to_bits());
        block.push((10.0f32 + i as f32).to_bits());
        block.push((20.0f32 + i as f32).to_bits());
    }
    let sel = selection(1, 1, 1, vec![0]);
    let raw = assemble(&sel, &vec![block]).unwrap();

    let single = select_polarizations(&raw, PolarizationMode::Single);
    assert_eq!(single.num_polarizations, 1);
    assert_eq!(single.data.len(), 1);
    assert_eq!(f32::from_bits(single.value_at(0, 0, 0, 0)), 1.5);

    let dual = select_polarizations(&raw, PolarizationMode::Dual);
    assert_eq!(dual.num_polarizations, 2);
    assert_eq!(dual.data.len(), 2);
    assert_eq!(f32::from_bits(dual.value_at(0, 0, 0, 0)), 1.5);
    assert_eq!(f32::from_bits(dual.value_at(0, 0, 0, 1)), 4.5);
}

#[test]
fn assembly_is_all_or_nothing() {
    // The read for the last (timestep, row) pair failed: its block is
    // missing, and no tensor is produced.
    let sel = selection(2, 4, 1, vec![0, 3]);
    let plan = read_plan(&sel);
    let mut blocks = synthetic_blocks(&plan, 1);
    blocks.pop();
    match assemble(&sel, &blocks) {
        Err(e) => assert_eq!(e, ExtractError::Shape),
        Ok(_) => panic!("expected the assembly to fail"),
    }
}

#[test]
fn assembly_rejects_short_block() {
    let sel = selection(1, 1, 2, vec![0]);
    let plan = read_plan(&sel);
    let mut blocks = synthetic_blocks(&plan, 2);
    blocks[0].truncate(12);
    match assemble(&sel, &blocks) {
        Err(e) => assert_eq!(e, ExtractError::Shape),
        Ok(_) => panic!("expected the assembly to fail"),
    }
}

#[test]
fn empty_selection_rejected() {
    match Selection::new(1, 4, 2, Vec::new()) {
        Err(e) => assert_eq!(e, ExtractError::Configuration),
        Ok(_) => panic!("expected the selection to be rejected"),
    }
}

#[test]
fn end_to_end_single_polarization() {
    let sel = selection(2, 4, 2, vec![0, 3]);
    let plan = read_plan(&sel);
    assert_eq!(plan, vec![1, 4, 5, 8]);
    let blocks = synthetic_blocks(&plan, 2);
    let raw = assemble(&sel, &blocks).unwrap();
    let out = select_polarizations(&raw, PolarizationMode::Single);
    assert_eq!(
        (out.num_timesteps, out.num_rows, out.num_channels),
        (2, 2, 2)
    );
    assert_eq!(out.data.len(), 8);
    let expected_groups = [[1u64, 4], [5, 8]];
    for t in 0..2 {
        for r in 0..2 {
            for ch in 0..2 {
                let expected = (expected_groups[t][r] * 100 + ch as u64) as f32;
                assert_eq!(f32::from_bits(out.value_at(t, r, ch, 0)), expected);
            }
        }
    }
}

#[test]
fn error_descriptions() {
    assert_eq!(
        ExtractError::Configuration.describe(),
        "empty row-index selection"
    );
    assert_eq!(
        ExtractError::Format.describe(),
        "named group parameter not found in header"
    );
    assert_eq!(ExtractError::Io.describe(), "read failure");
    assert_eq!(
        ExtractError::Shape.describe(),
        "raw payload block of unexpected length"
    );
}
