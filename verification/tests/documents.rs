use scuffcommander::action::{Action, ActionConfig, Condition};
use scuffcommander::confgen::{input_str, obs_setup, vts_setup};
use scuffcommander::configurator::actions::{
    add_new_action, delete_action, get_actions, load_action_details,
};
use scuffcommander::configurator::chain::{
    add_new_condition_action_to_temp_chain, add_new_single_action_to_temp_chain,
    clear_temp_chain, copy_action_to_temp_chain, delete_entry_from_temp_chain, store_temp_chain,
    TemporaryChain,
};
use scuffcommander::configurator::condition::{
    add_new_condition_action, get_condition_action_from_ui, ConditionActionData,
};
use scuffcommander::configurator::config::{
    document_path, get_config, get_config_folder, get_ui_style, store_ui_style, AppConfigState,
    ConfigFolder, UIConfigState,
};
use scuffcommander::configurator::image::{
    get_base64image_from_bytes, image_of_kind, is_examinable, FileKind,
};
use scuffcommander::configurator::pages::{
    add_new_button_to_page, delete_button_from_page, delete_page, edit_button_in_page,
    get_page_button_data, get_page_buttons, get_page_buttons_info, get_page_names,
    get_page_or_action_name_list, is_listed, move_button_to_index, rename_page,
};
use scuffcommander::configurator::plugins::{make_ready, Readiness};
use scuffcommander::configurator::vts::generate_buttons_for_hotkeys;
use scuffcommander::configurator::EditError;
use scuffcommander::plugins::obs::{OBSAction, OBSConfig, OBSQuery};
use scuffcommander::plugins::vts::{VTSAction, VTSConfig};
use scuffcommander::plugins::{PluginAction, PluginConfig, PluginQuery, PluginStates, PluginType};
use scuffcommander::table::Table;
use scuffcommander::text::{comes_before, concat2, concat3, decimal_string, sort_texts};
use scuffcommander::ui::{
    Base64Image, ButtonData, ButtonStyle, UIButton, UIButtonType, UIConfig, UIPage, UIStyle,
};
use scuffcommander::AppConfig;

fn scene(name: &str) -> Action {
    Action::Single(PluginAction::OBS(OBSAction::ProgramSceneChange(name.to_string())))
}

fn run(target: &str) -> UIButton {
    UIButton::ExecuteAction(ButtonData::plain(target.to_string()))
}

fn open(target: &str) -> UIButton {
    UIButton::OpenPage(ButtonData::plain(target.to_string()))
}

fn texts(names: &[&str]) -> Vec<String> {
    names.iter().map(|s| s.to_string()).collect()
}

fn style() -> ButtonStyle {
    ButtonStyle {
        width: "1em".to_string(),
        height: "2cm".to_string(),
        bg_color: "#000000".to_string(),
        fg_color: "#FFFFFF".to_string(),
    }
}

fn png() -> Vec<u8> {
    vec![0x89, 0x50, 0x4E, 0x47, 0x0D, 0x0A, 0x1A, 0x0A]
}

fn sample_ui() -> UIConfig {
    let mut ui = UIConfig::default();
    assert!(add_new_button_to_page("home".to_string(), run("a1"), Ok(Vec::new()), &mut ui).is_ok());
    assert!(
        add_new_button_to_page("home".to_string(), open("second"), Ok(Vec::new()), &mut ui)
            .is_ok()
    );
    assert!(
        add_new_button_to_page("second".to_string(), run("a2"), Ok(Vec::new()), &mut ui).is_ok()
    );
    assert!(
        add_new_button_to_page("second".to_string(), open("home"), Ok(Vec::new()), &mut ui)
            .is_ok()
    );
    ui
}

fn sample_actions() -> ActionConfig {
    let mut actions = ActionConfig::default();
    for name in ["a3", "a1", "a2"] {
        assert!(add_new_action(name.to_string(), scene(name), false, &mut actions).is_ok());
    }
    actions
}

fn obs_plugins() -> PluginStates {
    PluginStates::init(vec![(
        PluginConfig::OBS(OBSConfig {
            addr: "localhost".to_string(),
            port: 4455,
            password: None,
        }),
        true,
    )])
}

#[test]
fn decimal_strings() {
    assert_eq!(decimal_string(0), "0");
    assert_eq!(decimal_string(7), "7");
    assert_eq!(decimal_string(10), "10");
    assert_eq!(decimal_string(28), "28");
    assert_eq!(decimal_string(1234567890), "1234567890");
    assert_eq!(decimal_string(u64::MAX), "18446744073709551615");
}

#[test]
fn joined_texts() {
    assert_eq!(concat2("ab", "cd"), "abcd");
    assert_eq!(concat2("", ""), "");
    assert_eq!(concat3("a", "", "c"), "ac");
}

#[test]
fn text_order_is_the_order_of_strings() {
    let samples = ["", "a", "A", "ab", "abc", "b", "Z", "é", "z", "日本", "a b", "10", "9"];
    for a in samples {
        for b in samples {
            assert_eq!(comes_before(a, b), a < b, "{:?} before {:?}", a, b);
        }
    }
}

#[test]
fn sorting_texts() {
    let mut names = texts(&["pear", "apple", "fig", "apple", "Zebra", "", "figs"]);
    sort_texts(&mut names);
    assert_eq!(
        names,
        texts(&["", "Zebra", "apple", "apple", "fig", "figs", "pear"])
    );
    let mut none: Vec<String> = Vec::new();
    sort_texts(&mut none);
    assert!(none.is_empty());
    let mut sorted = texts(&["b", "a", "c", "é", "d"]);
    let mut expected = sorted.clone();
    expected.sort_unstable();
    sort_texts(&mut sorted);
    assert_eq!(sorted, expected);
}

#[test]
fn table_is_a_map_that_keeps_the_order_of_names() {
    let mut table: Table<u32> = Table::new();
    assert_eq!(table.len(), 0);
    assert_eq!(table.insert("b".to_string(), 1), None);
    assert_eq!(table.insert("a".to_string(), 2), None);
    assert_eq!(table.insert("b".to_string(), 3), Some(1));
    assert_eq!(table.len(), 2);
    assert_eq!(table.keys(), texts(&["b", "a"]));
    assert_eq!(table.get("b"), Some(&3));
    assert_eq!(table.get("a"), Some(&2));
    assert_eq!(table.get("c"), None);
    assert!(table.contains_key("a"));
    assert!(!table.contains_key(""));
    assert_eq!(table.find("a"), Some(1));
    assert_eq!(*table.name_at(0), "b");
    assert_eq!(*table.value_at(1), 2);
    *table.value_at_mut(1) = 20;
    table.set_value_at(0, 30);
    match table.get_mut("a") {
        Some(v) => *v += 1,
        None => panic!("a is there"),
    }
    assert_eq!(table.get("a"), Some(&21));
    assert_eq!(table.get("b"), Some(&30));
    assert!(table.get_mut("zz").is_none());
    assert_eq!(table.remove("b"), Some(30));
    assert_eq!(table.remove("b"), None);
    assert_eq!(table.keys(), texts(&["a"]));
}

#[test]
fn defaults() {
    let app = AppConfig::default();
    assert_eq!(app.addr, "localhost");
    assert_eq!(app.port, 8080);
    assert_eq!(app.plugins, vec![PluginConfig::General]);
    assert_eq!(app.clone(), app);
    let actions = ActionConfig::default();
    assert_eq!(actions.actions.len(), 0);
    let ui = UIConfig::default();
    assert_eq!(ui.pages.keys(), texts(&["home"]));
    assert_eq!(ui.pages.get("home").unwrap().buttons.len(), 0);
    assert_eq!(
        ui.style,
        UIStyle {
            default_button_style: ButtonStyle {
                width: "3cm".to_string(),
                height: "3cm".to_string(),
                bg_color: "#656565".to_string(),
                fg_color: "#FFFFFF".to_string(),
            },
            bg_color: "#FFFFFF".to_string(),
            fg_color: "#000000".to_string(),
        }
    );
}

#[test]
fn labels() {
    assert_eq!(
        style().to_string(),
        "width: 1em, height: 2cm, background color: #000000, text color: #FFFFFF"
    );
    let image = Base64Image {
        format: "image/png".to_string(),
        data: "AAAA".to_string(),
    };
    assert_eq!(image.to_string(), "MIME type: image/png");
    let data = ButtonData {
        target_id: "go".to_string(),
        style_override: None,
        img: None,
    };
    assert_eq!(
        data.to_string(),
        "ID: go, style override: (None) and image: (None)"
    );
    let full = ButtonData {
        target_id: "go".to_string(),
        style_override: Some(style()),
        img: Some(image.clone()),
    };
    assert_eq!(
        full.to_string(),
        "ID: go, style override: (width: 1em, height: 2cm, background color: #000000, text color: #FFFFFF) and image: (MIME type: image/png)"
    );
    assert_eq!(
        UIButton::ExecuteAction(data.clone()).to_string(),
        "Execute action with ID: go, style override: (None) and image: (None)"
    );
    assert_eq!(
        UIButton::OpenPage(data.clone()).to_string(),
        "Open page with ID: go, style override: (None) and image: (None)"
    );
    assert_eq!(full.clone(), full);
}

#[test]
fn button_data_access() {
    let mut button = run("x");
    assert_eq!(button.get_data().target_id, "x");
    assert_eq!(button.get_kind(), UIButtonType::ExecuteAction);
    button.get_mut_data().target_id = "y".to_string();
    assert_eq!(button, run("y"));
    let mut button = open("p");
    button.get_mut_data().style_override = Some(style());
    assert_eq!(button.get_kind(), UIButtonType::OpenPage);
    assert_eq!(button.get_data().style_override, Some(style()));
    assert_eq!(button.clone().into_data().target_id, "p");
    assert_eq!(
        UIButton::of_kind(UIButtonType::OpenPage, ButtonData::plain("p".to_string())),
        open("p")
    );
}

#[test]
fn edit_error_messages() {
    let cases = vec![
        (EditError::EmptyId, "ID can't be empty"),
        (EditError::ActionExists, "Action with given ID already exists"),
        (EditError::ActionMissing, "Action with given ID does not exist"),
        (EditError::ActionNotFound, "Action with given ID not found"),
        (EditError::NotAChain, "Action with given ID is not a chain"),
        (
            EditError::PluginNotSelected,
            "Selected plugin has not been configured",
        ),
        (EditError::PageNotFound, "Page with given ID not found"),
        (
            EditError::PageMissing,
            "Page with the given ID does not exist",
        ),
        (EditError::StartOutOfBounds, "Starting index out of bounds"),
        (EditError::TargetOutOfBounds, "Target index out of bounds"),
        (EditError::ButtonOutOfBounds, "Button index out of bounds"),
        (
            EditError::UnknownFileType,
            "Unable to determine selected file type",
        ),
        (
            EditError::NotAnImage,
            "Selected file does not appear to be an image",
        ),
        (
            EditError::NoOriginalImage,
            "No original image to keep since this is adding a new button",
        ),
        (
            EditError::PageExists,
            "A page already exists with the given ID",
        ),
        (
            EditError::PageGone,
            "The page with the given ID does not exist",
        ),
        (EditError::EmptyPageId, "Page ID cannot be empty"),
        (
            EditError::PageTaken("keys".to_string()),
            "Page with ID keys already exists",
        ),
        (
            EditError::HomeMissing,
            "The home page appears to be missing",
        ),
        (
            EditError::NamelessHotkey,
            "A hotkey is present in the selected model with no name",
        ),
        (
            EditError::DuplicateHotkey,
            "Multiple hotkeys in the selected model have the same name",
        ),
        (
            EditError::ActionTaken("wave".to_string()),
            "Action with ID wave already exists",
        ),
        (EditError::File("denied".to_string()), "denied"),
    ];
    for (error, message) in cases {
        assert_eq!(error.to_string(), message);
    }
}

#[test]
fn actions_are_listed_added_loaded_and_deleted() {
    let mut actions = sample_actions();
    assert_eq!(get_actions(&actions), texts(&["a1", "a2", "a3"]));
    assert_eq!(
        add_new_action(String::new(), scene("x"), true, &mut actions),
        Err(EditError::EmptyId)
    );
    assert_eq!(
        add_new_action("a1".to_string(), scene("x"), false, &mut actions),
        Err(EditError::ActionExists)
    );
    assert_eq!(load_action_details("a1", &actions), Ok(scene("a1")));
    assert_eq!(
        add_new_action("a1".to_string(), scene("x"), true, &mut actions),
        Ok(())
    );
    assert_eq!(load_action_details("a1", &actions), Ok(scene("x")));
    assert_eq!(
        load_action_details("nope", &actions),
        Err(EditError::ActionNotFound)
    );
    assert_eq!(delete_action("a2", &mut actions), Ok(()));
    assert_eq!(
        delete_action("a2", &mut actions),
        Err(EditError::ActionMissing)
    );
    assert_eq!(get_actions(&actions), texts(&["a1", "a3"]));
}

#[test]
fn action_clone_is_deep() {
    let action = Action::If(
        Condition {
            query: PluginQuery::OBS(OBSQuery::IsStreaming),
            target: "true".to_string(),
        },
        Box::new(Action::Chain(vec![scene("a"), Action::Chain(Vec::new())])),
        Some(Box::new(scene("b"))),
    );
    assert_eq!(action.clone(), action);
    let without = Action::If(
        Condition {
            query: PluginQuery::OBS(OBSQuery::IsStreaming),
            target: "true".to_string(),
        },
        Box::new(scene("a")),
        None,
    );
    assert_eq!(without.clone(), without);
    assert_eq!(
        Action::duplicate_all(&vec![scene("a"), scene("b")]),
        vec![scene("a"), scene("b")]
    );
}

#[test]
fn scratch_chain() {
    let mut actions = sample_actions();
    let plugins = obs_plugins();
    let mut chain = TemporaryChain(Vec::new());
    let command = |name: &str| PluginAction::OBS(OBSAction::ProgramSceneChange(name.to_string()));
    assert_eq!(
        add_new_single_action_to_temp_chain(command("x"), None, &plugins, &mut chain),
        Ok(())
    );
    assert_eq!(
        add_new_single_action_to_temp_chain(command("z"), None, &plugins, &mut chain),
        Ok(())
    );
    assert_eq!(
        add_new_single_action_to_temp_chain(command("y"), Some(1), &plugins, &mut chain),
        Ok(())
    );
    assert_eq!(
        add_new_single_action_to_temp_chain(command("w"), Some(0), &plugins, &mut chain),
        Ok(())
    );
    assert_eq!(
        chain.0,
        vec![scene("w"), scene("x"), scene("y"), scene("z")]
    );
    assert_eq!(
        add_new_single_action_to_temp_chain(
            PluginAction::VTS(VTSAction::CheckConnection),
            None,
            &plugins,
            &mut chain
        ),
        Err(EditError::PluginNotSelected)
    );
    assert_eq!(chain.0.len(), 4);
    delete_entry_from_temp_chain(0, &mut chain);
    assert_eq!(chain.0, vec![scene("x"), scene("y"), scene("z")]);
    assert_eq!(
        store_temp_chain("a1".to_string(), &mut actions, &chain, false),
        Err(EditError::ActionExists)
    );
    assert_eq!(
        store_temp_chain("stored".to_string(), &mut actions, &chain, false),
        Ok(())
    );
    assert_eq!(
        store_temp_chain("a1".to_string(), &mut actions, &chain, true),
        Ok(())
    );
    assert_eq!(
        load_action_details("stored", &actions),
        Ok(Action::Chain(vec![scene("x"), scene("y"), scene("z")]))
    );
    clear_temp_chain(&mut chain);
    assert!(chain.0.is_empty());
    assert_eq!(
        copy_action_to_temp_chain("nope", &actions, &mut chain),
        Err(EditError::ActionMissing)
    );
    assert_eq!(
        copy_action_to_temp_chain("a2", &actions, &mut chain),
        Err(EditError::NotAChain)
    );
    assert!(chain.0.is_empty());
    assert_eq!(
        copy_action_to_temp_chain("stored", &actions, &mut chain),
        Ok(())
    );
    assert_eq!(chain.0, vec![scene("x"), scene("y"), scene("z")]);
    let data = ConditionActionData {
        condition: Condition {
            query: PluginQuery::OBS(OBSQuery::IsRecording),
            target: "false".to_string(),
        },
        then_action: "a2".to_string(),
        else_action: None,
    };
    assert_eq!(
        add_new_condition_action_to_temp_chain(data, Some(1), &actions, &plugins, &mut chain),
        Ok(())
    );
    assert_eq!(chain.0.len(), 4);
    assert_eq!(
        chain.0[1],
        Action::If(
            Condition {
                query: PluginQuery::OBS(OBSQuery::IsRecording),
                target: "false".to_string(),
            },
            Box::new(scene("a2")),
            None
        )
    );
}

#[test]
fn branches_from_names() {
    let mut actions = sample_actions();
    let plugins = obs_plugins();
    let condition = || Condition {
        query: PluginQuery::OBS(OBSQuery::CurrentProgramScene),
        target: "Waiting".to_string(),
    };
    let data = |taken: &str, other: Option<&str>| ConditionActionData {
        condition: condition(),
        then_action: taken.to_string(),
        else_action: other.map(|s| s.to_string()),
    };
    assert_eq!(
        get_condition_action_from_ui(data("a1", None), &actions, &plugins),
        Ok(Action::If(condition(), Box::new(scene("a1")), None))
    );
    assert_eq!(
        get_condition_action_from_ui(data("a1", Some("a2")), &actions, &plugins),
        Ok(Action::If(
            condition(),
            Box::new(scene("a1")),
            Some(Box::new(scene("a2")))
        ))
    );
    assert_eq!(
        get_condition_action_from_ui(data("zz", Some("a2")), &actions, &plugins),
        Err(EditError::ActionMissing)
    );
    assert_eq!(
        get_condition_action_from_ui(data("a1", Some("zz")), &actions, &plugins),
        Err(EditError::ActionMissing)
    );
    assert_eq!(
        get_condition_action_from_ui(data("a1", None), &actions, &PluginStates::new()),
        Err(EditError::PluginNotSelected)
    );
    assert_eq!(
        add_new_condition_action(String::new(), data("a1", None), true, &mut actions, &plugins),
        Err(EditError::EmptyId)
    );
    assert_eq!(
        add_new_condition_action(
            "a1".to_string(),
            data("a1", None),
            false,
            &mut actions,
            &plugins
        ),
        Err(EditError::ActionExists)
    );
    assert_eq!(
        add_new_condition_action(
            "a1".to_string(),
            data("zz", None),
            false,
            &mut actions,
            &plugins
        ),
        Err(EditError::ActionMissing)
    );
    assert_eq!(
        add_new_condition_action(
            "branch".to_string(),
            data("a1", Some("a3")),
            false,
            &mut actions,
            &plugins
        ),
        Ok(())
    );
    assert_eq!(
        load_action_details("branch", &actions),
        Ok(Action::If(
            condition(),
            Box::new(scene("a1")),
            Some(Box::new(scene("a3")))
        ))
    );
}

#[test]
fn pages_are_listed_and_read() {
    let ui = sample_ui();
    assert_eq!(get_page_names(&ui), texts(&["home", "second"]));
    assert_eq!(
        get_page_buttons_info("home", &ui),
        Ok(texts(&[
            "Execute action with ID: a1, style override: (None) and image: (None)",
            "Open page with ID: second, style override: (None) and image: (None)"
        ]))
    );
    assert_eq!(
        get_page_buttons_info("nope", &ui),
        Err(EditError::PageNotFound)
    );
    assert_eq!(
        get_page_buttons("second", &ui),
        Ok(vec![run("a2"), open("home")])
    );
    assert_eq!(get_page_buttons("nope", &ui), Err(EditError::PageNotFound));
    assert_eq!(get_page_button_data("home", 1, &ui), Ok(open("second")));
    assert_eq!(
        get_page_button_data("home", 2, &ui),
        Err(EditError::ButtonOutOfBounds)
    );
    assert_eq!(
        get_page_button_data("nope", 0, &ui),
        Err(EditError::PageNotFound)
    );
}

#[test]
fn buttons_are_moved_and_deleted() {
    let mut ui = UIConfig::default();
    for name in ["a", "b", "c", "d"] {
        assert_eq!(
            add_new_button_to_page("home".to_string(), run(name), Ok(Vec::new()), &mut ui),
            Ok(false)
        );
    }
    assert_eq!(move_button_to_index("home", 0, 2, &mut ui), Ok(()));
    assert_eq!(
        get_page_buttons("home", &ui),
        Ok(vec![run("b"), run("c"), run("a"), run("d")])
    );
    assert_eq!(move_button_to_index("home", 3, 0, &mut ui), Ok(()));
    assert_eq!(
        get_page_buttons("home", &ui),
        Ok(vec![run("d"), run("b"), run("c"), run("a")])
    );
    assert_eq!(move_button_to_index("home", 1, 1, &mut ui), Ok(()));
    assert_eq!(
        move_button_to_index("home", 4, 0, &mut ui),
        Err(EditError::StartOutOfBounds)
    );
    assert_eq!(
        move_button_to_index("home", 0, 4, &mut ui),
        Err(EditError::TargetOutOfBounds)
    );
    assert_eq!(
        move_button_to_index("nope", 0, 0, &mut ui),
        Err(EditError::PageNotFound)
    );
    assert_eq!(
        get_page_buttons("home", &ui),
        Ok(vec![run("d"), run("b"), run("c"), run("a")])
    );
    assert_eq!(delete_button_from_page("home", 1, &mut ui), Ok(()));
    assert_eq!(
        get_page_buttons("home", &ui),
        Ok(vec![run("d"), run("c"), run("a")])
    );
    assert_eq!(
        delete_button_from_page("nope", 0, &mut ui),
        Err(EditError::PageNotFound)
    );
    assert_eq!(delete_page("home", &mut ui), Ok(()));
    assert_eq!(delete_page("home", &mut ui), Err(EditError::PageNotFound));
    assert!(get_page_names(&ui).is_empty());
}

#[test]
fn new_buttons_make_their_page() {
    let mut ui = UIConfig::default();
    assert_eq!(
        add_new_button_to_page(String::new(), run("a"), Ok(Vec::new()), &mut ui),
        Err(EditError::EmptyId)
    );
    assert_eq!(
        add_new_button_to_page("fresh".to_string(), run("a"), Ok(Vec::new()), &mut ui),
        Ok(true)
    );
    assert_eq!(
        add_new_button_to_page("fresh".to_string(), run("b"), Ok(Vec::new()), &mut ui),
        Ok(false)
    );
    assert_eq!(get_page_buttons("fresh", &ui), Ok(vec![run("a"), run("b")]));
    assert_eq!(get_page_names(&ui), texts(&["fresh", "home"]));
    let keep = UIButton::ExecuteAction(ButtonData {
        target_id: "c".to_string(),
        style_override: None,
        img: Some(Base64Image {
            format: "keeporiginal".to_string(),
            data: String::new(),
        }),
    });
    assert_eq!(
        add_new_button_to_page("fresh".to_string(), keep, Ok(Vec::new()), &mut ui),
        Err(EditError::NoOriginalImage)
    );
    let with_image = || {
        UIButton::ExecuteAction(ButtonData {
            target_id: "c".to_string(),
            style_override: Some(style()),
            img: Some(Base64Image {
                format: String::new(),
                data: "/tmp/picture.png".to_string(),
            }),
        })
    };
    assert_eq!(
        with_image().image_to_load(),
        Some(&"/tmp/picture.png".to_string())
    );
    assert_eq!(run("a").image_to_load(), None);
    assert_eq!(
        add_new_button_to_page(
            "fresh".to_string(),
            with_image(),
            Err("No such file or directory".to_string()),
            &mut ui
        ),
        Err(EditError::File("No such file or directory".to_string()))
    );
    assert_eq!(
        add_new_button_to_page("fresh".to_string(), with_image(), Ok(vec![1, 2, 3]), &mut ui),
        Err(EditError::UnknownFileType)
    );
    assert_eq!(
        add_new_button_to_page(
            "fresh".to_string(),
            with_image(),
            Ok(b"%PDF-1.4 and so on".to_vec()),
            &mut ui
        ),
        Err(EditError::NotAnImage)
    );
    assert_eq!(get_page_buttons("fresh", &ui), Ok(vec![run("a"), run("b")]));
    assert_eq!(
        add_new_button_to_page("fresh".to_string(), with_image(), Ok(png()), &mut ui),
        Ok(false)
    );
    assert_eq!(
        get_page_button_data("fresh", 2, &ui),
        Ok(UIButton::ExecuteAction(ButtonData {
            target_id: "c".to_string(),
            style_override: Some(style()),
            img: Some(Base64Image {
                format: "image/png".to_string(),
                data: "iVBORw0KGgo=".to_string(),
            }),
        }))
    );
}

#[test]
fn images_from_bytes() {
    assert_eq!(
        get_base64image_from_bytes(&png()),
        Ok(Base64Image {
            format: "image/png".to_string(),
            data: "iVBORw0KGgo=".to_string(),
        })
    );
    assert_eq!(
        get_base64image_from_bytes(&vec![0xFF, 0xD8, 0xFF, 0xAA]),
        Ok(Base64Image {
            format: "image/jpeg".to_string(),
            data: "/9j/qg==".to_string(),
        })
    );
    assert_eq!(
        get_base64image_from_bytes(&Vec::new()),
        Err(EditError::UnknownFileType)
    );
    assert_eq!(
        get_base64image_from_bytes(&b"%PDF-1.4 and so on".to_vec()),
        Err(EditError::NotAnImage)
    );
    assert_eq!(
        image_of_kind(None, &vec![1]),
        Err(EditError::UnknownFileType)
    );
    assert_eq!(
        image_of_kind(Some((FileKind::Video, "video/mp4".to_string())), &vec![1]),
        Err(EditError::NotAnImage)
    );
    assert_eq!(
        image_of_kind(
            Some((FileKind::Image, "image/gif".to_string())),
            &b"hello world~".to_vec()
        ),
        Ok(Base64Image {
            format: "image/gif".to_string(),
            data: "aGVsbG8gd29ybGR+".to_string(),
        })
    );
}

#[test]
fn buttons_are_edited() {
    let mut ui = UIConfig::default();
    let pictured = UIButton::ExecuteAction(ButtonData {
        target_id: "a".to_string(),
        style_override: None,
        img: Some(Base64Image {
            format: String::new(),
            data: "/tmp/a.png".to_string(),
        }),
    });
    assert_eq!(
        add_new_button_to_page("home".to_string(), pictured, Ok(png()), &mut ui),
        Ok(false)
    );
    assert_eq!(
        add_new_button_to_page("home".to_string(), run("b"), Ok(Vec::new()), &mut ui),
        Ok(false)
    );
    let keep = |target: &str| {
        UIButton::OpenPage(ButtonData {
            target_id: target.to_string(),
            style_override: Some(style()),
            img: Some(Base64Image {
                format: "keeporiginal".to_string(),
                data: "ignored".to_string(),
            }),
        })
    };
    assert_eq!(
        edit_button_in_page("nope", 0, keep("x"), Ok(Vec::new()), &mut ui),
        Err(EditError::PageMissing)
    );
    assert_eq!(
        edit_button_in_page("home", 2, keep("x"), Ok(Vec::new()), &mut ui),
        Err(EditError::ButtonOutOfBounds)
    );
    assert_eq!(
        edit_button_in_page("home", 0, keep("x"), Ok(Vec::new()), &mut ui),
        Ok(())
    );
    assert_eq!(
        get_page_button_data("home", 0, &ui),
        Ok(UIButton::OpenPage(ButtonData {
            target_id: "x".to_string(),
            style_override: Some(style()),
            img: Some(Base64Image {
                format: "image/png".to_string(),
                data: "iVBORw0KGgo=".to_string(),
            }),
        }))
    );
    assert_eq!(
        edit_button_in_page("home", 1, keep("y"), Ok(Vec::new()), &mut ui),
        Ok(())
    );
    assert_eq!(
        get_page_button_data("home", 1, &ui),
        Ok(UIButton::OpenPage(ButtonData {
            target_id: "y".to_string(),
            style_override: Some(style()),
            img: None,
        }))
    );
    assert_eq!(
        edit_button_in_page("home", 0, run("plain"), Ok(Vec::new()), &mut ui),
        Ok(())
    );
    assert_eq!(get_page_button_data("home", 0, &ui), Ok(run("plain")));
    let load = UIButton::ExecuteAction(ButtonData {
        target_id: "z".to_string(),
        style_override: None,
        img: Some(Base64Image {
            format: "whatever".to_string(),
            data: "/tmp/z.jpg".to_string(),
        }),
    });
    assert_eq!(
        edit_button_in_page("home", 0, load.clone(), Err("gone".to_string()), &mut ui),
        Err(EditError::File("gone".to_string()))
    );
    assert_eq!(
        edit_button_in_page("home", 0, load.clone(), Ok(vec![0, 1]), &mut ui),
        Err(EditError::UnknownFileType)
    );
    assert_eq!(get_page_button_data("home", 0, &ui), Ok(run("plain")));
    assert_eq!(
        edit_button_in_page("home", 0, load, Ok(vec![0xFF, 0xD8, 0xFF, 0xAA]), &mut ui),
        Ok(())
    );
    assert_eq!(
        get_page_button_data("home", 0, &ui),
        Ok(UIButton::ExecuteAction(ButtonData {
            target_id: "z".to_string(),
            style_override: None,
            img: Some(Base64Image {
                format: "image/jpeg".to_string(),
                data: "/9j/qg==".to_string(),
            }),
        }))
    );
}

#[test]
fn pages_are_renamed() {
    let mut ui = sample_ui();
    assert_eq!(
        add_new_button_to_page("second".to_string(), open("second"), Ok(Vec::new()), &mut ui),
        Ok(false)
    );
    assert_eq!(
        add_new_button_to_page("second".to_string(), run("second"), Ok(Vec::new()), &mut ui),
        Ok(false)
    );
    assert_eq!(
        rename_page(String::new(), "x".to_string(), &mut ui),
        Err(EditError::EmptyId)
    );
    assert_eq!(
        rename_page("second".to_string(), String::new(), &mut ui),
        Err(EditError::EmptyId)
    );
    assert_eq!(
        rename_page("second".to_string(), "home".to_string(), &mut ui),
        Err(EditError::PageExists)
    );
    assert_eq!(
        rename_page("nope".to_string(), "x".to_string(), &mut ui),
        Err(EditError::PageGone)
    );
    assert_eq!(get_page_names(&ui), texts(&["home", "second"]));
    assert_eq!(
        rename_page("second".to_string(), "other".to_string(), &mut ui),
        Ok(())
    );
    assert_eq!(get_page_names(&ui), texts(&["home", "other"]));
    assert_eq!(
        get_page_buttons("home", &ui),
        Ok(vec![run("a1"), open("other")])
    );
    assert_eq!(
        get_page_buttons("other", &ui),
        Ok(vec![run("a2"), open("home"), open("other"), run("second")])
    );
}

#[test]
fn names_that_a_new_button_can_point_at() {
    let ui = sample_ui();
    let actions = sample_actions();
    let list = |id: Option<&str>, kind: UIButtonType, global: bool| {
        get_page_or_action_name_list(id.map(|s| s.to_string()), kind, global, &ui, &actions)
    };
    assert_eq!(
        list(None, UIButtonType::ExecuteAction, false),
        Ok(texts(&["a1", "a2", "a3"]))
    );
    assert_eq!(
        list(Some("home"), UIButtonType::ExecuteAction, false),
        Ok(texts(&["a2", "a3"]))
    );
    assert_eq!(
        list(Some("second"), UIButtonType::ExecuteAction, false),
        Ok(texts(&["a1", "a3"]))
    );
    assert_eq!(
        list(Some("home"), UIButtonType::ExecuteAction, true),
        Ok(texts(&["a3"]))
    );
    assert_eq!(
        list(None, UIButtonType::ExecuteAction, true),
        Ok(texts(&["a3"]))
    );
    assert_eq!(
        list(Some("nope"), UIButtonType::ExecuteAction, false),
        Err(EditError::PageNotFound)
    );
    assert_eq!(
        list(Some("nope"), UIButtonType::ExecuteAction, true),
        Ok(texts(&["a3"]))
    );
    assert_eq!(
        list(None, UIButtonType::OpenPage, false),
        Ok(texts(&["home", "second"]))
    );
    assert_eq!(list(Some("home"), UIButtonType::OpenPage, false), Ok(texts(&[])));
    assert_eq!(list(None, UIButtonType::OpenPage, true), Ok(texts(&[])));
    assert_eq!(
        list(Some("nope"), UIButtonType::OpenPage, false),
        Err(EditError::PageNotFound)
    );
    let mut lonely = UIConfig::default();
    assert_eq!(
        add_new_button_to_page("third".to_string(), run("a1"), Ok(Vec::new()), &mut lonely),
        Ok(true)
    );
    assert_eq!(
        get_page_or_action_name_list(
            Some("home".to_string()),
            UIButtonType::OpenPage,
            false,
            &lonely,
            &actions
        ),
        Ok(texts(&["third"]))
    );
    assert_eq!(
        get_page_or_action_name_list(
            Some("third".to_string()),
            UIButtonType::OpenPage,
            true,
            &lonely,
            &actions
        ),
        Ok(texts(&["home"]))
    );
    assert!(is_listed(&texts(&["a", "b"]), &"b".to_string()));
    assert!(!is_listed(&texts(&["a", "b"]), &"c".to_string()));
}

#[test]
fn hotkey_pages_are_generated() {
    let mut ui = sample_ui();
    let mut actions = sample_actions();
    let hotkeys = || {
        vec![
            ("id-wave".to_string(), "wave".to_string()),
            ("id-nod".to_string(), "nod".to_string()),
        ]
    };
    let mut generate = |hotkeys: Vec<(String, String)>,
                        page: &str,
                        actions: &mut ActionConfig,
                        ui: &mut UIConfig| {
        generate_buttons_for_hotkeys(hotkeys, page.to_string(), "vts ", "!", actions, ui)
    };
    assert_eq!(
        generate(hotkeys(), "", &mut actions, &mut ui),
        Err(EditError::EmptyPageId)
    );
    assert_eq!(
        generate(hotkeys(), "second", &mut actions, &mut ui),
        Err(EditError::PageTaken("second".to_string()))
    );
    assert_eq!(
        generate(
            vec![("i".to_string(), String::new())],
            "keys",
            &mut actions,
            &mut ui
        ),
        Err(EditError::NamelessHotkey)
    );
    assert_eq!(
        generate(
            vec![
                ("i".to_string(), "wave".to_string()),
                ("j".to_string(), "wave".to_string())
            ],
            "keys",
            &mut actions,
            &mut ui
        ),
        Err(EditError::DuplicateHotkey)
    );
    assert_eq!(
        add_new_action("vts nod!".to_string(), scene("x"), false, &mut actions),
        Ok(())
    );
    assert_eq!(
        generate(hotkeys(), "keys", &mut actions, &mut ui),
        Err(EditError::ActionTaken("nod".to_string()))
    );
    assert_eq!(delete_action("vts nod!", &mut actions), Ok(()));
    assert_eq!(get_actions(&actions), texts(&["a1", "a2", "a3"]));
    assert_eq!(get_page_names(&ui), texts(&["home", "second"]));
    let mut homeless = UIConfig::default();
    assert_eq!(delete_page("home", &mut homeless), Ok(()));
    assert_eq!(
        generate(hotkeys(), "keys", &mut actions, &mut homeless),
        Err(EditError::HomeMissing)
    );
    assert_eq!(generate(hotkeys(), "keys", &mut actions, &mut ui), Ok(()));
    assert_eq!(
        get_actions(&actions),
        texts(&["a1", "a2", "a3", "vts nod!", "vts wave!"])
    );
    assert_eq!(
        load_action_details("vts wave!", &actions),
        Ok(Action::Single(PluginAction::VTS(VTSAction::TriggerHotkey(
            "id-wave".to_string()
        ))))
    );
    assert_eq!(
        get_page_buttons("keys", &ui),
        Ok(vec![open("home"), run("vts wave!"), run("vts nod!")])
    );
    assert_eq!(
        get_page_buttons("home", &ui),
        Ok(vec![run("a1"), open("second"), open("keys")])
    );
    assert_eq!(
        generate(Vec::new(), "empty", &mut actions, &mut ui),
        Ok(())
    );
    assert_eq!(get_page_buttons("empty", &ui), Ok(vec![open("home")]));
}

#[test]
fn tool_state() {
    let folder = ConfigFolder("/etc/sc".to_string());
    assert_eq!(get_config_folder(&folder), "/etc/sc");
    assert_eq!(document_path(&folder, "ui.json"), "/etc/sc/ui.json");
    let state = AppConfigState(AppConfig::default());
    assert_eq!(get_config(&state), AppConfig::default());
    let mut ui = UIConfigState(sample_ui());
    let new_style = UIStyle {
        default_button_style: style(),
        bg_color: "#111111".to_string(),
        fg_color: "#222222".to_string(),
    };
    store_ui_style(new_style.clone(), &mut ui);
    assert_eq!(get_ui_style(&ui), new_style);
    assert_eq!(get_page_names(&ui.0), texts(&["home", "second"]));
}

#[test]
fn plugins_are_made_ready() {
    let mut plugins = PluginStates::init(vec![
        (
            PluginConfig::VTS(VTSConfig {
                addr: "ws://localhost:8001".to_string(),
                token_file: "t".to_string(),
            }),
            false,
        ),
        (PluginConfig::General, true),
    ]);
    assert!(matches!(
        make_ready(&plugins, PluginType::General),
        Ok(Readiness::Ready)
    ));
    assert_eq!(
        make_ready(&plugins, PluginType::OBS).unwrap_err().to_string(),
        "Plugin OBS not configured"
    );
    match make_ready(&plugins, PluginType::VTS) {
        Ok(Readiness::Connect(_, token)) => {
            assert_eq!(
                token.resume(&mut plugins, false).unwrap_err().to_string(),
                "Unable to create VTS websocket connection"
            );
        }
        _ => panic!("a disconnected connector connects first"),
    }
    match make_ready(&plugins, PluginType::VTS) {
        Ok(Readiness::Connect(config, token)) => {
            assert_eq!(config.get_type(), PluginType::VTS);
            assert!(token.resume(&mut plugins, true).is_ok());
        }
        _ => panic!("a disconnected connector connects first"),
    }
    assert!(matches!(
        make_ready(&plugins, PluginType::VTS),
        Ok(Readiness::Ready)
    ));
}

#[test]
fn first_configuration() {
    assert_eq!(input_str("\n", "localhost"), "localhost");
    assert_eq!(input_str("", "4455"), "4455");
    assert_eq!(input_str("ab", "x"), "ab");
    assert_eq!(input_str("example.org\n", "x"), "example.org\n");
    assert_eq!(
        obs_setup("h".to_string(), 4455, String::new()),
        PluginConfig::OBS(OBSConfig {
            addr: "h".to_string(),
            port: 4455,
            password: None
        })
    );
    assert_eq!(
        obs_setup("h".to_string(), 1, "pw".to_string()),
        PluginConfig::OBS(OBSConfig {
            addr: "h".to_string(),
            port: 1,
            password: Some("pw".to_string())
        })
    );
    assert_eq!(
        vts_setup("ws://x".to_string(), "f".to_string()),
        PluginConfig::VTS(VTSConfig {
            addr: "ws://x".to_string(),
            token_file: "f".to_string()
        })
    );
}

#[test]
fn files_that_can_be_examined() {
    assert_eq!(is_examinable(&Vec::new()), usize::BITS >= 64);
    assert_eq!(is_examinable(&png()), usize::BITS >= 64);
    // A frame length of all ones in a skippable frame: where the word is
    // wide the file is of no known type, and nothing overflows.
    let frame: Vec<u8> = vec![0x50, 0x2A, 0x4D, 0x18, 0xFF, 0xFF, 0xFF, 0xFF];
    if is_examinable(&frame) {
        assert_eq!(
            get_base64image_from_bytes(&frame),
            Err(EditError::UnknownFileType)
        );
    }
}

#[test]
fn the_file_is_looked_at_only_where_the_edit_gets_that_far() {
    let ui = sample_ui();
    let pictured = UIButton::ExecuteAction(ButtonData {
        target_id: "a".to_string(),
        style_override: None,
        img: Some(Base64Image {
            format: String::new(),
            data: "/tmp/a.png".to_string(),
        }),
    });
    let kept = UIButton::ExecuteAction(ButtonData {
        target_id: "a".to_string(),
        style_override: None,
        img: Some(Base64Image {
            format: "keeporiginal".to_string(),
            data: "/tmp/a.png".to_string(),
        }),
    });
    let path = "/tmp/a.png".to_string();
    assert_eq!(pictured.image_for_new_button("home"), Some(&path));
    assert_eq!(pictured.image_for_new_button("fresh"), Some(&path));
    assert_eq!(pictured.image_for_new_button(""), None);
    assert_eq!(kept.image_for_new_button("home"), None);
    assert_eq!(run("a").image_for_new_button("home"), None);
    assert_eq!(pictured.image_for_edit("home", 0, &ui), Some(&path));
    assert_eq!(pictured.image_for_edit("home", 1, &ui), Some(&path));
    assert_eq!(pictured.image_for_edit("home", 2, &ui), None);
    assert_eq!(pictured.image_for_edit("nope", 0, &ui), None);
    assert_eq!(kept.image_for_edit("home", 0, &ui), None);
    assert_eq!(run("a").image_for_edit("home", 0, &ui), None);
}
