use spotatui::columns::{get_percentage_width, resolve_columns, ColumnId, ColumnSpec, Percent, TableColumnSet};

fn ids(cols: &[spotatui::columns::ResolvedColumn]) -> Vec<&str> {
    cols.iter().map(|c| c.id.as_str()).collect()
}

#[test]
fn defaults_are_rendered_when_config_is_empty() {
    let columns = resolve_columns(TableColumnSet::Songs, 100, &[]);
    assert_eq!(ids(&columns), ["liked", "title", "artist", "album", "length"]);
}

#[test]
fn configured_columns_can_reorder_and_override_headers() {
    let columns = resolve_columns(
        TableColumnSet::Songs,
        100,
        &[
            ColumnSpec {
                id: "artist".to_string(),
                header: Some("Band".to_string()),
                width_percent: Some(Percent::whole(30)),
                width: None,
            },
            ColumnSpec { id: "title".to_string(), header: None, width_percent: None, width: Some(40) },
        ],
    );
    assert_eq!(columns[0].id, "artist");
    assert_eq!(columns[0].header, "Band");
    assert_eq!(columns[0].width, 29);
    assert_eq!(columns[1].id, "title");
    assert_eq!(columns[1].width, 40);
    assert_eq!(columns[1].column_id, ColumnId::Title);
}

#[test]
fn unknown_configured_columns_are_dropped() {
    let columns = resolve_columns(
        TableColumnSet::Podcasts,
        50,
        &[
            ColumnSpec { id: "nope".to_string(), ..Default::default() },
            ColumnSpec { id: "publisher".to_string(), ..Default::default() },
        ],
    );
    assert_eq!(ids(&columns), ["publisher"]);
    assert_eq!(columns[0].header, "Publisher(s)");
    assert_eq!(columns[0].width, 18);
}

#[test]
fn default_widths_follow_the_catalogue() {
    let columns = resolve_columns(TableColumnSet::AlbumTracks, 103, &[]);
    assert_eq!(ids(&columns), ["liked", "index", "title", "artist", "length"]);
    let widths: Vec<u16> = columns.iter().map(|c| c.width).collect();
    assert_eq!(widths, vec![2, 3, 35, 40, 20]);
    assert_eq!(columns[0].column_id, ColumnId::Liked);
    assert_eq!(columns[1].header, "#");
}

#[test]
fn percentage_widths_pad_and_cap() {
    assert_eq!(get_percentage_width(100, 3, 10), 29);
    assert_eq!(get_percentage_width(2, 1, 1), 0);
    assert_eq!(get_percentage_width(65535, 10, 1), 65535);
}
