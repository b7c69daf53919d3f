use kbw::replay::{group_by_output, kept_ranges, section_ranges};

/// The sections as a scan of the lines builds them: unmarked lines collect
/// in the section under way, marked lines wait beside it, and the first
/// unmarked line after marked ones closes the section with them at its end.
fn scanned_sections(marked: &[bool]) -> Vec<Vec<usize>> {
    let mut sections: Vec<Vec<usize>> = Vec::new();
    let mut current_section: Vec<usize> = Vec::new();
    let mut measure_section: Vec<usize> = Vec::new();
    for (line, is_marked) in marked.iter().enumerate() {
        if *is_marked {
            measure_section.push(line);
        } else {
            if !measure_section.is_empty() {
                current_section.append(&mut measure_section);
                sections.push(current_section);
                current_section = Vec::new();
                measure_section = Vec::new();
            }
            current_section.push(line);
        }
    }
    if !measure_section.is_empty() {
        current_section.append(&mut measure_section);
    }
    if !current_section.is_empty() {
        sections.push(current_section);
    }
    sections
}

#[test]
fn section_ranges_of_no_lines_is_one_empty_range() {
    assert_eq!(section_ranges(&[]), vec![(0usize, 0usize)]);
}

#[test]
fn section_ranges_without_marked_lines_is_one_range() {
    assert_eq!(section_ranges(&[false]), vec![(0usize, 1usize)]);
    assert_eq!(section_ranges(&[false, false, false]), vec![(0usize, 3usize)]);
    assert_eq!(section_ranges(&[true, true]), vec![(0usize, 2usize)]);
}

#[test]
fn section_ranges_cut_after_each_run_of_marked_lines() {
    assert_eq!(
        section_ranges(&[false, false, true, true, false, true, false, false]),
        vec![(0usize, 4usize), (4, 6), (6, 8)]
    );
    assert_eq!(section_ranges(&[true, false, true, false]), vec![(0usize, 1usize), (1, 3), (3, 4)]);
    assert_eq!(section_ranges(&[false, true]), vec![(0usize, 2usize)]);
}

#[test]
fn section_ranges_agree_with_a_scan_of_the_lines() {
    for len in 0..11usize {
        for pattern in 0..(1usize << len) {
            let marked: Vec<bool> = (0..len).map(|i| pattern & (1 << i) != 0).collect();
            let ranges = section_ranges(&marked);
            let mut sections: Vec<Vec<usize>> = Vec::new();
            for (k, (start, end)) in ranges.iter().enumerate() {
                assert!(start <= end && *end <= len);
                if k + 1 < ranges.len() || start < end {
                    sections.push((*start..*end).collect());
                }
            }
            assert_eq!(sections, scanned_sections(&marked));
        }
    }
}

#[test]
fn group_by_output_of_nothing_is_empty() {
    assert!(group_by_output(&[]).is_empty());
}

#[test]
fn group_by_output_joins_neighbours_with_one_output() {
    let groups = group_by_output(&[(0, 0), (1, 0), (2, 1), (3, 1), (4, 1), (5, 0)]);
    assert_eq!(groups, vec![vec![0usize, 1], vec![2, 3, 4], vec![5]]);
}

#[test]
fn group_by_output_starts_a_group_for_the_first_pair() {
    assert_eq!(group_by_output(&[(7, 0)]), vec![vec![7usize]]);
    assert_eq!(group_by_output(&[(7, 3)]), vec![vec![7usize]]);
    assert_eq!(group_by_output(&[(7, 3), (8, 0)]), vec![vec![7usize], vec![8]]);
    assert_eq!(group_by_output(&[(7, 3), (8, 3)]), vec![vec![7usize, 8]]);
}

#[test]
fn group_by_output_keeps_repeated_qubits_and_their_order() {
    assert_eq!(
        group_by_output(&[(2, 5), (2, 5), (1, 5), (2, 6)]),
        vec![vec![2usize, 2, 1], vec![2]]
    );
}

#[test]
fn kept_ranges_drop_a_blank_last_section() {
    assert_eq!(kept_ranges(&[], &[]), Vec::<(usize, usize)>::new());
    assert_eq!(kept_ranges(&[false], &[true]), Vec::<(usize, usize)>::new());
    assert_eq!(kept_ranges(&[false, false], &[true, true]), Vec::<(usize, usize)>::new());
    assert_eq!(
        kept_ranges(&[false, true, false, false], &[false, false, true, true]),
        vec![(0usize, 2usize)]
    );
}

#[test]
fn kept_ranges_keep_a_last_section_with_a_line_that_is_not_blank() {
    assert_eq!(kept_ranges(&[false], &[false]), vec![(0usize, 1usize)]);
    assert_eq!(kept_ranges(&[false, false], &[true, false]), vec![(0usize, 2usize)]);
    assert_eq!(
        kept_ranges(&[false, true, false, false], &[false, false, true, false]),
        vec![(0usize, 2usize), (2, 4)]
    );
}

#[test]
fn kept_ranges_never_drop_an_earlier_section() {
    assert_eq!(
        kept_ranges(&[true, false, true, false], &[true, true, true, true]),
        vec![(0usize, 1usize), (1, 3)]
    );
}

#[test]
fn kept_ranges_agree_with_a_scan_of_the_lines() {
    for len in 0..9usize {
        for pattern in 0..(1usize << len) {
            let marked: Vec<bool> = (0..len).map(|i| pattern & (1 << i) != 0).collect();
            let blank = vec![false; len];
            let sections: Vec<Vec<usize>> = kept_ranges(&marked, &blank)
                .iter()
                .map(|(start, end)| (*start..*end).collect())
                .collect();
            assert_eq!(sections, scanned_sections(&marked));
        }
    }
}
