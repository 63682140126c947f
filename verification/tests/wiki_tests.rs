use prtgn::wiki::{alternate_colors, handle_key, item_label, RowShade, Status, WikiAction, WikiItem, WikiKey, WikiList};

#[test]
fn default_list_sorted() {
    let list = WikiList::default_list();
    let names: Vec<&str> = list.items.iter().map(|i| i.wiki.as_str()).collect();
    assert_eq!(
        names,
        vec![
            "Alterhuman Wiki | MediaWiki | alterhuman.miraheze.org",
            "Alterhumanity Wiki | Fandom | alterhumanity.fandom.com",
            "Ivycomb Wiki | MediaWiki | wiki.ivy.cm",
            "LGBTQIA+ Wiki | MediaWiki | lgbtqia.wiki",
            "New LGBTQIA+ Wiki | MediaWiki | new.lgbtqia.wiki",
            "Wikipedia | MediaWiki | wikipedia.org",
            "Wiktionary | MediaWiki | wiktionary.org",
        ]
    );
    assert_eq!(list.items[5].url, "https://en.wikipedia.org/w/api.php");
    assert_eq!(list.selected_info(Some(5)), "The free encyclopedia that anyone can edit.");
    assert_eq!(list.selected_info(None), "Nothing selected...");
}

#[test]
fn stable_order() {
    let entries = vec![
        WikiItem::new(Status::Unselected, "b", "1", ""),
        WikiItem::new(Status::Unselected, "a", "2", ""),
        WikiItem::new(Status::Selected, "b", "3", ""),
        WikiItem::new(Status::Unselected, "ab", "4", ""),
        WikiItem::new(Status::Unselected, "", "5", ""),
    ];
    let list = WikiList::from_entries(entries);
    let infos: Vec<&str> = list.items.iter().map(|i| i.info.as_str()).collect();
    assert_eq!(infos, vec!["5", "2", "4", "1", "3"]);
}

#[test]
fn keys_and_labels() {
    assert_eq!(handle_key(WikiKey::Char('q')), WikiAction::Quit);
    assert_eq!(handle_key(WikiKey::Esc), WikiAction::Quit);
    assert_eq!(handle_key(WikiKey::Left), WikiAction::SelectNone);
    assert_eq!(handle_key(WikiKey::Char('s')), WikiAction::SelectNext);
    assert_eq!(handle_key(WikiKey::Up), WikiAction::SelectPrevious);
    assert_eq!(handle_key(WikiKey::Char('g')), WikiAction::SelectFirst);
    assert_eq!(handle_key(WikiKey::Char('G')), WikiAction::SelectLast);
    assert_eq!(handle_key(WikiKey::Enter), WikiAction::ToggleStatus);
    assert_eq!(handle_key(WikiKey::Char('z')), WikiAction::Nothing);
    let item = WikiItem::new(Status::Selected, "W", "", "");
    assert_eq!(item_label(&item), " ✓ W");
    let item = WikiItem::new(Status::Unselected, "W", "", "");
    assert_eq!(item_label(&item), " ☐ W");
    assert_eq!(alternate_colors(0), RowShade::Normal);
    assert_eq!(alternate_colors(3), RowShade::Alternate);
}

#[test]
fn toggle_status() {
    let mut list = WikiList::default_list();
    list.toggle(Some(2));
    assert_eq!(list.items[2].status, Status::Selected);
    assert_eq!(list.items[1].status, Status::Unselected);
    assert_eq!(item_label(&list.items[2]), " ✓ Ivycomb Wiki | MediaWiki | wiki.ivy.cm");
    list.toggle(Some(2));
    assert_eq!(list.items[2].status, Status::Unselected);
    list.toggle(None);
    assert!(list.items.iter().all(|i| i.status == Status::Unselected));
}
