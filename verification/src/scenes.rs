use vstd::prelude::*;

verus! {

/// The screens the game can show.
#[derive(Clone, Copy, Debug, PartialEq, Eq, Structural)]
pub enum GameScene {
    MainMenu,
    Running,
    Settings,
}

/// Why a scene name failed to parse: the variant carries the unknown name.
#[derive(Debug, PartialEq, Eq)]
pub enum GameSceneParseError<'a> {
    ParseGameScene(&'a str),
}

impl GameScene {
    /// Reads a scene from its configuration name: `running`, `settings`
    /// or `main_menu`; any other name is refused and carried back.
    pub fn parse<'a>(value: &'a str) -> (r: Result<GameScene, GameSceneParseError<'a>>)
        ensures
            value@ == "running"@ ==> r == Ok::<GameScene, GameSceneParseError>(GameScene::Running),
            value@ == "settings"@ ==> r == Ok::<GameScene, GameSceneParseError>(
                GameScene::Settings,
            ),
            value@ == "main_menu"@ ==> r == Ok::<GameScene, GameSceneParseError>(
                GameScene::MainMenu,
            ),
            value@ != "running"@ && value@ != "settings"@ && value@ != "main_menu"@ ==> (r
                matches Err(GameSceneParseError::ParseGameScene(m)) && m@ == value@),
    {
        proof {
            reveal_strlit("running");
            reveal_strlit("settings");
            reveal_strlit("main_menu");
            assert("running"@[0] == 'r' && "settings"@[0] == 's' && "main_menu"@[0] == 'm');
        }
        if crate::text::str_eq(value, "running") {
            Ok(GameScene::Running)
        } else if crate::text::str_eq(value, "settings") {
            Ok(GameScene::Settings)
        } else if crate::text::str_eq(value, "main_menu") {
            Ok(GameScene::MainMenu)
        } else {
            Err(GameSceneParseError::ParseGameScene(value))
        }
    }

    /// The resource path of the scene's file.
    pub fn to_path(&self) -> (r: &'static str)
        ensures
            self is Running ==> r@ == "res://game/screens/running/running.tscn"@,
            self is Settings ==> r@ == "res://menus/settings.tscn"@,
            self is MainMenu ==> r@ == "res://menus/main_menu.tscn"@,
    {
        match self {
            GameScene::Running => "res://game/screens/running/running.tscn",
            GameScene::Settings => "res://menus/settings.tscn",
            GameScene::MainMenu => "res://menus/main_menu.tscn",
        }
    }
}

} // verus!
