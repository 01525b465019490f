use romm_tui::rom_group::group_roms_by_name;
use romm_tui::types::Rom;

fn rom(id: u64, name: &str, fs_name: &str) -> Rom {
    Rom {
        id,
        platform_id: 1,
        platform_slug: None,
        platform_fs_slug: None,
        platform_custom_name: None,
        platform_display_name: None,
        fs_name: fs_name.to_string(),
        fs_name_no_tags: name.to_string(),
        fs_name_no_ext: name.to_string(),
        fs_extension: "zip".to_string(),
        fs_path: format!("/{id}.zip"),
        fs_size_bytes: 1,
        name: name.to_string(),
        slug: None,
        summary: None,
        path_cover_small: None,
        path_cover_large: None,
        url_cover: None,
        is_unidentified: false,
        is_identified: true,
    }
}

#[test]
fn groups_are_sorted_by_name_with_base_file_first() {
    let items = vec![
        rom(1, "Zelda", "Zelda [Update].zip"),
        rom(2, "Mario", "Mario.zip"),
        rom(3, "Zelda", "Zelda.zip"),
        rom(4, "Zelda", "Zelda [DLC] pack.zip"),
        rom(5, "Zelda", "Zelda (Rev 1).zip"),
    ];
    let groups = group_roms_by_name(&items);
    assert_eq!(groups.len(), 2);
    assert_eq!(groups[0].name, "Mario");
    assert_eq!(groups[0].primary.id, 2);
    assert!(groups[0].others.is_empty());
    assert_eq!(groups[1].name, "Zelda");
    assert_eq!(groups[1].primary.id, 3);
    let others: Vec<u64> = groups[1].others.iter().map(|r| r.id).collect();
    assert_eq!(others, vec![5, 1, 4]);
}

#[test]
fn empty_input_gives_no_groups() {
    assert!(group_roms_by_name(&[]).is_empty());
}

#[test]
fn all_extra_files_still_form_a_group() {
    let items = vec![rom(7, "X", "X [dlc].zip"), rom(8, "X", "X [update].zip")];
    let groups = group_roms_by_name(&items);
    assert_eq!(groups.len(), 1);
    assert_eq!(groups[0].primary.id, 7);
    assert_eq!(groups[0].others[0].id, 8);
}
