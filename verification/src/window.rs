//! The application's side of the event channel: what the window and its parts
//! are told to do for each input, in a process that annotates one image and in
//! the daemon.

use vstd::prelude::*;

verus! {

/// An input to the application. `I` is the type of a decoded image, `T` the
/// type that names a drawing tool.
#[derive(Debug)]
pub enum AppInput<I, T> {
    /// The window came on screen.
    Realized,
    /// Show or hide both toolbars.
    SetToolbarsDisplay(bool),
    /// Show the toolbars if they are hidden, hide them if they are shown.
    ToggleToolbarsDisplay,
    /// A shortcut chose this tool.
    ToolSwitchShortcut(T),
    /// A shortcut chose the palette colour with this index.
    ColorSwitchShortcut(u64),
    /// Put `image`, which is `width` by `height` pixels, in place of the one
    /// on show.
    LoadNewImage { image: I, width: i32, height: i32 },
    /// Show the window.
    ShowWindow,
    /// Hide the window.
    HideWindow,
    /// The user is done with the image.
    RequestExit,
}

/// One thing that the window or one of its parts is told to do.
#[derive(Debug)]
pub enum Effect<I, T> {
    /// Tell the tools toolbar to show or hide itself.
    ToolsToolbarSetVisibility(bool),
    /// Tell the style toolbar to show or hide itself.
    StyleToolbarSetVisibility(bool),
    /// Tell the tools toolbar to change between shown and hidden.
    ToolsToolbarToggleVisibility,
    /// Tell the style toolbar to change between shown and hidden.
    StyleToolbarToggleVisibility,
    /// Tell the tools toolbar that this tool was chosen.
    SwitchSelectedTool(T),
    /// Tell the style toolbar that this palette colour was chosen.
    PaletteColorSelected(u64),
    /// Hand the sketch board a new image.
    SketchBoardLoadNewImage(I),
    /// Send the application the input [`AppInput::Realized`].
    Realize,
    /// Make the window visible or invisible.
    SetVisible(bool),
    /// Bring the window to the front.
    Present,
    /// Leave the application.
    Quit,
}

/// What the application remembers between inputs.
#[derive(Debug, Clone, Copy, PartialEq, Eq)]
pub struct App {
    /// Width and height of the image on show, in pixels.
    pub image_dimensions: (i32, i32),
    /// Whether this process is the daemon.
    pub is_daemon: bool,
}

/// What the application does on `message`, in order.
pub open spec fn effects_of<I, T>(app: App, message: AppInput<I, T>) -> Seq<Effect<I, T>> {
    match message {
        AppInput::Realized => Seq::empty(),
        AppInput::SetToolbarsDisplay(visible) => seq![
            Effect::ToolsToolbarSetVisibility(visible),
            Effect::StyleToolbarSetVisibility(visible),
        ],
        AppInput::ToggleToolbarsDisplay => seq![
            Effect::ToolsToolbarToggleVisibility,
            Effect::StyleToolbarToggleVisibility,
        ],
        AppInput::ToolSwitchShortcut(tool) => seq![Effect::SwitchSelectedTool(tool)],
        AppInput::ColorSwitchShortcut(index) => seq![Effect::PaletteColorSelected(index)],
        AppInput::LoadNewImage { image, .. } => if app.is_daemon {
            seq![Effect::SketchBoardLoadNewImage(image), Effect::Realize]
        } else {
            seq![Effect::SketchBoardLoadNewImage(image)]
        },
        AppInput::ShowWindow => seq![Effect::SetVisible(true), Effect::Present],
        AppInput::HideWindow => seq![Effect::SetVisible(false)],
        AppInput::RequestExit => if app.is_daemon {
            seq![Effect::SetVisible(false)]
        } else {
            seq![Effect::Quit]
        },
    }
}

/// What the application remembers after `message`: a new image brings its
/// dimensions, and nothing else changes anything.
pub open spec fn app_after<I, T>(app: App, message: AppInput<I, T>) -> App {
    match message {
        AppInput::LoadNewImage { width, height, .. } => App {
            image_dimensions: (width, height),
            is_daemon: app.is_daemon,
        },
        _ => app,
    }
}

impl App {
    /// The application at its start, with the image it was given.
    pub fn new(width: i32, height: i32, is_daemon: bool) -> (r: App)
        ensures
            r == (App { image_dimensions: (width, height), is_daemon }),
    {
        App { image_dimensions: (width, height), is_daemon }
    }

    /// Whether the window is on show from the start: the daemon's is not.
    pub fn visible_on_activate(&self) -> (r: bool)
        ensures
            r == !self.is_daemon,
    {
        !self.is_daemon
    }

    /// Takes one input: remembers what it brings and returns what is to be
    /// done, in order.
    pub fn update<I, T>(&mut self, message: AppInput<I, T>) -> (r: Vec<Effect<I, T>>)
        ensures
            r@ == effects_of(*old(self), message),
            *final(self) == app_after(*old(self), message),
    {
        let mut effects: Vec<Effect<I, T>> = Vec::new();
        match message {
            AppInput::Realized => {},
            AppInput::SetToolbarsDisplay(visible) => {
                effects.push(Effect::ToolsToolbarSetVisibility(visible));
                effects.push(Effect::StyleToolbarSetVisibility(visible));
            },
            AppInput::ToggleToolbarsDisplay => {
                effects.push(Effect::ToolsToolbarToggleVisibility);
                effects.push(Effect::StyleToolbarToggleVisibility);
            },
            AppInput::ToolSwitchShortcut(tool) => {
                effects.push(Effect::SwitchSelectedTool(tool));
            },
            AppInput::ColorSwitchShortcut(index) => {
                effects.push(Effect::PaletteColorSelected(index));
            },
            AppInput::LoadNewImage { image, width, height } => {
                self.image_dimensions = (width, height);
                effects.push(Effect::SketchBoardLoadNewImage(image));
                if self.is_daemon {
                    effects.push(Effect::Realize);
                }
            },
            AppInput::ShowWindow => {
                effects.push(Effect::SetVisible(true));
                effects.push(Effect::Present);
            },
            AppInput::HideWindow => {
                effects.push(Effect::SetVisible(false));
            },
            AppInput::RequestExit => {
                if self.is_daemon {
                    effects.push(Effect::SetVisible(false));
                } else {
                    effects.push(Effect::Quit);
                }
            },
        }
        assert(effects@ =~= effects_of(*old(self), message));
        effects
    }
}

/// The daemon never leaves on an input: whatever comes over the channel, its
/// window is at most hidden. A process that annotates one image leaves when
/// the user is done, and on nothing else.
pub proof fn lemma_only_a_client_quits<I, T>(app: App, message: AppInput<I, T>, i: int)
    requires
        0 <= i < effects_of(app, message).len(),
    ensures
        effects_of(app, message)[i] is Quit <==> !app.is_daemon && message is RequestExit,
{
}

/// No input turns a daemon into a client or a client into a daemon.
pub proof fn lemma_role_is_kept<I, T>(app: App, message: AppInput<I, T>)
    ensures
        app_after(app, message).is_daemon == app.is_daemon,
{
}

} // verus!
