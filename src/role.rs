use vstd::prelude::*;

verus! {

/// The role of an accessible object. On the bus a role travels as its
/// numeric code: `Invalid` is 0 and each following role is one more, up to
/// `PushButtonMenu`, the last known role.
#[derive(Clone, Copy, Debug, PartialEq, Eq, Hash, Default)]
pub enum Role {
    #[default]
    Invalid,
    AcceleratorLabel,
    Alert,
    Animation,
    Arrow,
    Calendar,
    Canvas,
    CheckBox,
    CheckMenuItem,
    ColorChooser,
    ColumnHeader,
    ComboBox,
    DateEditor,
    DesktopIcon,
    DesktopFrame,
    Dial,
    Dialog,
    DirectoryPane,
    DrawingArea,
    FileChooser,
    Filler,
    FocusTraversable,
    FontChooser,
    Frame,
    GlassPane,
    HTMLContainer,
    Icon,
    Image,
    InternalFrame,
    Label,
    LayeredPane,
    List,
    ListItem,
    Menu,
    MenuBar,
    MenuItem,
    OptionPane,
    PageTab,
    PageTabList,
    Panel,
    PasswordText,
    PopupMenu,
    ProgressBar,
    PushButton,
    RadioButton,
    RadioMenuItem,
    RootPane,
    RowHeader,
    ScrollBar,
    ScrollPane,
    Separator,
    Slider,
    SpinButton,
    SplitPane,
    StatusBar,
    Table,
    TableCell,
    TableColumnHeader,
    TableRowHeader,
    TearoffMenuItem,
    Terminal,
    Text,
    ToggleButton,
    ToolBar,
    ToolTip,
    Tree,
    TreeTable,
    Unknown,
    Viewport,
    Window,
    Extended,
    Header,
    Footer,
    Paragraph,
    Ruler,
    Application,
    Autocomplete,
    Editbar,
    Embedded,
    Entry,
    Chart,
    Caption,
    DocumentFrame,
    Heading,
    Page,
    Section,
    RedundantObject,
    Form,
    Link,
    InputMethodWindow,
    TableRow,
    TreeItem,
    DocumentSpreadsheet,
    DocumentPresentation,
    DocumentText,
    DocumentWeb,
    DocumentEmail,
    Comment,
    ListBox,
    Grouping,
    ImageMap,
    Notification,
    InfoBar,
    LevelBar,
    TitleBar,
    BlockQuote,
    Audio,
    Video,
    Definition,
    Article,
    Landmark,
    Log,
    Marquee,
    Math,
    Rating,
    Timer,
    Static,
    MathFraction,
    MathRoot,
    Subscript,
    Superscript,
    DescriptionList,
    DescriptionTerm,
    DescriptionValue,
    Footnote,
    ContentDeletion,
    ContentInsertion,
    Mark,
    Suggestion,
    PushButtonMenu,
}

/// The code of the last known role; every code above it is unknown.
pub const LAST_ROLE_CODE: u32 = 129;

impl Role {
    /// The numeric code of the role on the bus.
    pub open spec fn spec_code(self) -> u32 {
        match self {
            Role::Invalid => 0,
            Role::AcceleratorLabel => 1,
            Role::Alert => 2,
            Role::Animation => 3,
            Role::Arrow => 4,
            Role::Calendar => 5,
            Role::Canvas => 6,
            Role::CheckBox => 7,
            Role::CheckMenuItem => 8,
            Role::ColorChooser => 9,
            Role::ColumnHeader => 10,
            Role::ComboBox => 11,
            Role::DateEditor => 12,
            Role::DesktopIcon => 13,
            Role::DesktopFrame => 14,
            Role::Dial => 15,
            Role::Dialog => 16,
            Role::DirectoryPane => 17,
            Role::DrawingArea => 18,
            Role::FileChooser => 19,
            Role::Filler => 20,
            Role::FocusTraversable => 21,
            Role::FontChooser => 22,
            Role::Frame => 23,
            Role::GlassPane => 24,
            Role::HTMLContainer => 25,
            Role::Icon => 26,
            Role::Image => 27,
            Role::InternalFrame => 28,
            Role::Label => 29,
            Role::LayeredPane => 30,
            Role::List => 31,
            Role::ListItem => 32,
            Role::Menu => 33,
            Role::MenuBar => 34,
            Role::MenuItem => 35,
            Role::OptionPane => 36,
            Role::PageTab => 37,
            Role::PageTabList => 38,
            Role::Panel => 39,
            Role::PasswordText => 40,
            Role::PopupMenu => 41,
            Role::ProgressBar => 42,
            Role::PushButton => 43,
            Role::RadioButton => 44,
            Role::RadioMenuItem => 45,
            Role::RootPane => 46,
            Role::RowHeader => 47,
            Role::ScrollBar => 48,
            Role::ScrollPane => 49,
            Role::Separator => 50,
            Role::Slider => 51,
            Role::SpinButton => 52,
            Role::SplitPane => 53,
            Role::StatusBar => 54,
            Role::Table => 55,
            Role::TableCell => 56,
            Role::TableColumnHeader => 57,
            Role::TableRowHeader => 58,
            Role::TearoffMenuItem => 59,
            Role::Terminal => 60,
            Role::Text => 61,
            Role::ToggleButton => 62,
            Role::ToolBar => 63,
            Role::ToolTip => 64,
            Role::Tree => 65,
            Role::TreeTable => 66,
            Role::Unknown => 67,
            Role::Viewport => 68,
            Role::Window => 69,
            Role::Extended => 70,
            Role::Header => 71,
            Role::Footer => 72,
            Role::Paragraph => 73,
            Role::Ruler => 74,
            Role::Application => 75,
            Role::Autocomplete => 76,
            Role::Editbar => 77,
            Role::Embedded => 78,
            Role::Entry => 79,
            Role::Chart => 80,
            Role::Caption => 81,
            Role::DocumentFrame => 82,
            Role::Heading => 83,
            Role::Page => 84,
            Role::Section => 85,
            Role::RedundantObject => 86,
            Role::Form => 87,
            Role::Link => 88,
            Role::InputMethodWindow => 89,
            Role::TableRow => 90,
            Role::TreeItem => 91,
            Role::DocumentSpreadsheet => 92,
            Role::DocumentPresentation => 93,
            Role::DocumentText => 94,
            Role::DocumentWeb => 95,
            Role::DocumentEmail => 96,
            Role::Comment => 97,
            Role::ListBox => 98,
            Role::Grouping => 99,
            Role::ImageMap => 100,
            Role::Notification => 101,
            Role::InfoBar => 102,
            Role::LevelBar => 103,
            Role::TitleBar => 104,
            Role::BlockQuote => 105,
            Role::Audio => 106,
            Role::Video => 107,
            Role::Definition => 108,
            Role::Article => 109,
            Role::Landmark => 110,
            Role::Log => 111,
            Role::Marquee => 112,
            Role::Math => 113,
            Role::Rating => 114,
            Role::Timer => 115,
            Role::Static => 116,
            Role::MathFraction => 117,
            Role::MathRoot => 118,
            Role::Subscript => 119,
            Role::Superscript => 120,
            Role::DescriptionList => 121,
            Role::DescriptionTerm => 122,
            Role::DescriptionValue => 123,
            Role::Footnote => 124,
            Role::ContentDeletion => 125,
            Role::ContentInsertion => 126,
            Role::Mark => 127,
            Role::Suggestion => 128,
            Role::PushButtonMenu => 129,
        }
    }

    /// The role that a code stands for, if the code is a known one.
    pub open spec fn of_code(code: u32) -> Option<Role> {
        match code {
            0 => Some(Role::Invalid),
            1 => Some(Role::AcceleratorLabel),
            2 => Some(Role::Alert),
            3 => Some(Role::Animation),
            4 => Some(Role::Arrow),
            5 => Some(Role::Calendar),
            6 => Some(Role::Canvas),
            7 => Some(Role::CheckBox),
            8 => Some(Role::CheckMenuItem),
            9 => Some(Role::ColorChooser),
            10 => Some(Role::ColumnHeader),
            11 => Some(Role::ComboBox),
            12 => Some(Role::DateEditor),
            13 => Some(Role::DesktopIcon),
            14 => Some(Role::DesktopFrame),
            15 => Some(Role::Dial),
            16 => Some(Role::Dialog),
            17 => Some(Role::DirectoryPane),
            18 => Some(Role::DrawingArea),
            19 => Some(Role::FileChooser),
            20 => Some(Role::Filler),
            21 => Some(Role::FocusTraversable),
            22 => Some(Role::FontChooser),
            23 => Some(Role::Frame),
            24 => Some(Role::GlassPane),
            25 => Some(Role::HTMLContainer),
            26 => Some(Role::Icon),
            27 => Some(Role::Image),
            28 => Some(Role::InternalFrame),
            29 => Some(Role::Label),
            30 => Some(Role::LayeredPane),
            31 => Some(Role::List),
            32 => Some(Role::ListItem),
            33 => Some(Role::Menu),
            34 => Some(Role::MenuBar),
            35 => Some(Role::MenuItem),
            36 => Some(Role::OptionPane),
            37 => Some(Role::PageTab),
            38 => Some(Role::PageTabList),
            39 => Some(Role::Panel),
            40 => Some(Role::PasswordText),
            41 => Some(Role::PopupMenu),
            42 => Some(Role::ProgressBar),
            43 => Some(Role::PushButton),
            44 => Some(Role::RadioButton),
            45 => Some(Role::RadioMenuItem),
            46 => Some(Role::RootPane),
            47 => Some(Role::RowHeader),
            48 => Some(Role::ScrollBar),
            49 => Some(Role::ScrollPane),
            50 => Some(Role::Separator),
            51 => Some(Role::Slider),
            52 => Some(Role::SpinButton),
            53 => Some(Role::SplitPane),
            54 => Some(Role::StatusBar),
            55 => Some(Role::Table),
            56 => Some(Role::TableCell),
            57 => Some(Role::TableColumnHeader),
            58 => Some(Role::TableRowHeader),
            59 => Some(Role::TearoffMenuItem),
            60 => Some(Role::Terminal),
            61 => Some(Role::Text),
            62 => Some(Role::ToggleButton),
            63 => Some(Role::ToolBar),
            64 => Some(Role::ToolTip),
            65 => Some(Role::Tree),
            66 => Some(Role::TreeTable),
            67 => Some(Role::Unknown),
            68 => Some(Role::Viewport),
            69 => Some(Role::Window),
            70 => Some(Role::Extended),
            71 => Some(Role::Header),
            72 => Some(Role::Footer),
            73 => Some(Role::Paragraph),
            74 => Some(Role::Ruler),
            75 => Some(Role::Application),
            76 => Some(Role::Autocomplete),
            77 => Some(Role::Editbar),
            78 => Some(Role::Embedded),
            79 => Some(Role::Entry),
            80 => Some(Role::Chart),
            81 => Some(Role::Caption),
            82 => Some(Role::DocumentFrame),
            83 => Some(Role::Heading),
            84 => Some(Role::Page),
            85 => Some(Role::Section),
            86 => Some(Role::RedundantObject),
            87 => Some(Role::Form),
            88 => Some(Role::Link),
            89 => Some(Role::InputMethodWindow),
            90 => Some(Role::TableRow),
            91 => Some(Role::TreeItem),
            92 => Some(Role::DocumentSpreadsheet),
            93 => Some(Role::DocumentPresentation),
            94 => Some(Role::DocumentText),
            95 => Some(Role::DocumentWeb),
            96 => Some(Role::DocumentEmail),
            97 => Some(Role::Comment),
            98 => Some(Role::ListBox),
            99 => Some(Role::Grouping),
            100 => Some(Role::ImageMap),
            101 => Some(Role::Notification),
            102 => Some(Role::InfoBar),
            103 => Some(Role::LevelBar),
            104 => Some(Role::TitleBar),
            105 => Some(Role::BlockQuote),
            106 => Some(Role::Audio),
            107 => Some(Role::Video),
            108 => Some(Role::Definition),
            109 => Some(Role::Article),
            110 => Some(Role::Landmark),
            111 => Some(Role::Log),
            112 => Some(Role::Marquee),
            113 => Some(Role::Math),
            114 => Some(Role::Rating),
            115 => Some(Role::Timer),
            116 => Some(Role::Static),
            117 => Some(Role::MathFraction),
            118 => Some(Role::MathRoot),
            119 => Some(Role::Subscript),
            120 => Some(Role::Superscript),
            121 => Some(Role::DescriptionList),
            122 => Some(Role::DescriptionTerm),
            123 => Some(Role::DescriptionValue),
            124 => Some(Role::Footnote),
            125 => Some(Role::ContentDeletion),
            126 => Some(Role::ContentInsertion),
            127 => Some(Role::Mark),
            128 => Some(Role::Suggestion),
            129 => Some(Role::PushButtonMenu),
            _ => None,
        }
    }

    /// The numeric code of the role on the bus.
    pub fn code(&self) -> (r: u32)
        ensures
            r == self.spec_code(),
    {
        match self {
            Role::Invalid => 0,
            Role::AcceleratorLabel => 1,
            Role::Alert => 2,
            Role::Animation => 3,
            Role::Arrow => 4,
            Role::Calendar => 5,
            Role::Canvas => 6,
            Role::CheckBox => 7,
            Role::CheckMenuItem => 8,
            Role::ColorChooser => 9,
            Role::ColumnHeader => 10,
            Role::ComboBox => 11,
            Role::DateEditor => 12,
            Role::DesktopIcon => 13,
            Role::DesktopFrame => 14,
            Role::Dial => 15,
            Role::Dialog => 16,
            Role::DirectoryPane => 17,
            Role::DrawingArea => 18,
            Role::FileChooser => 19,
            Role::Filler => 20,
            Role::FocusTraversable => 21,
            Role::FontChooser => 22,
            Role::Frame => 23,
            Role::GlassPane => 24,
            Role::HTMLContainer => 25,
            Role::Icon => 26,
            Role::Image => 27,
            Role::InternalFrame => 28,
            Role::Label => 29,
            Role::LayeredPane => 30,
            Role::List => 31,
            Role::ListItem => 32,
            Role::Menu => 33,
            Role::MenuBar => 34,
            Role::MenuItem => 35,
            Role::OptionPane => 36,
            Role::PageTab => 37,
            Role::PageTabList => 38,
            Role::Panel => 39,
            Role::PasswordText => 40,
            Role::PopupMenu => 41,
            Role::ProgressBar => 42,
            Role::PushButton => 43,
            Role::RadioButton => 44,
            Role::RadioMenuItem => 45,
            Role::RootPane => 46,
            Role::RowHeader => 47,
            Role::ScrollBar => 48,
            Role::ScrollPane => 49,
            Role::Separator => 50,
            Role::Slider => 51,
            Role::SpinButton => 52,
            Role::SplitPane => 53,
            Role::StatusBar => 54,
            Role::Table => 55,
            Role::TableCell => 56,
            Role::TableColumnHeader => 57,
            Role::TableRowHeader => 58,
            Role::TearoffMenuItem => 59,
            Role::Terminal => 60,
            Role::Text => 61,
            Role::ToggleButton => 62,
            Role::ToolBar => 63,
            Role::ToolTip => 64,
            Role::Tree => 65,
            Role::TreeTable => 66,
            Role::Unknown => 67,
            Role::Viewport => 68,
            Role::Window => 69,
            Role::Extended => 70,
            Role::Header => 71,
            Role::Footer => 72,
            Role::Paragraph => 73,
            Role::Ruler => 74,
            Role::Application => 75,
            Role::Autocomplete => 76,
            Role::Editbar => 77,
            Role::Embedded => 78,
            Role::Entry => 79,
            Role::Chart => 80,
            Role::Caption => 81,
            Role::DocumentFrame => 82,
            Role::Heading => 83,
            Role::Page => 84,
            Role::Section => 85,
            Role::RedundantObject => 86,
            Role::Form => 87,
            Role::Link => 88,
            Role::InputMethodWindow => 89,
            Role::TableRow => 90,
            Role::TreeItem => 91,
            Role::DocumentSpreadsheet => 92,
            Role::DocumentPresentation => 93,
            Role::DocumentText => 94,
            Role::DocumentWeb => 95,
            Role::DocumentEmail => 96,
            Role::Comment => 97,
            Role::ListBox => 98,
            Role::Grouping => 99,
            Role::ImageMap => 100,
            Role::Notification => 101,
            Role::InfoBar => 102,
            Role::LevelBar => 103,
            Role::TitleBar => 104,
            Role::BlockQuote => 105,
            Role::Audio => 106,
            Role::Video => 107,
            Role::Definition => 108,
            Role::Article => 109,
            Role::Landmark => 110,
            Role::Log => 111,
            Role::Marquee => 112,
            Role::Math => 113,
            Role::Rating => 114,
            Role::Timer => 115,
            Role::Static => 116,
            Role::MathFraction => 117,
            Role::MathRoot => 118,
            Role::Subscript => 119,
            Role::Superscript => 120,
            Role::DescriptionList => 121,
            Role::DescriptionTerm => 122,
            Role::DescriptionValue => 123,
            Role::Footnote => 124,
            Role::ContentDeletion => 125,
            Role::ContentInsertion => 126,
            Role::Mark => 127,
            Role::Suggestion => 128,
            Role::PushButtonMenu => 129,
        }
    }

    /// The role that a code stands for; `None` for a code above the last known
    /// role.
    pub fn from_code(code: u32) -> (r: Option<Role>)
        ensures
            r == Role::of_code(code),
            r is Some <==> code <= LAST_ROLE_CODE,
    {
        match code {
            0 => Some(Role::Invalid),
            1 => Some(Role::AcceleratorLabel),
            2 => Some(Role::Alert),
            3 => Some(Role::Animation),
            4 => Some(Role::Arrow),
            5 => Some(Role::Calendar),
            6 => Some(Role::Canvas),
            7 => Some(Role::CheckBox),
            8 => Some(Role::CheckMenuItem),
            9 => Some(Role::ColorChooser),
            10 => Some(Role::ColumnHeader),
            11 => Some(Role::ComboBox),
            12 => Some(Role::DateEditor),
            13 => Some(Role::DesktopIcon),
            14 => Some(Role::DesktopFrame),
            15 => Some(Role::Dial),
            16 => Some(Role::Dialog),
            17 => Some(Role::DirectoryPane),
            18 => Some(Role::DrawingArea),
            19 => Some(Role::FileChooser),
            20 => Some(Role::Filler),
            21 => Some(Role::FocusTraversable),
            22 => Some(Role::FontChooser),
            23 => Some(Role::Frame),
            24 => Some(Role::GlassPane),
            25 => Some(Role::HTMLContainer),
            26 => Some(Role::Icon),
            27 => Some(Role::Image),
            28 => Some(Role::InternalFrame),
            29 => Some(Role::Label),
            30 => Some(Role::LayeredPane),
            31 => Some(Role::List),
            32 => Some(Role::ListItem),
            33 => Some(Role::Menu),
            34 => Some(Role::MenuBar),
            35 => Some(Role::MenuItem),
            36 => Some(Role::OptionPane),
            37 => Some(Role::PageTab),
            38 => Some(Role::PageTabList),
            39 => Some(Role::Panel),
            40 => Some(Role::PasswordText),
            41 => Some(Role::PopupMenu),
            42 => Some(Role::ProgressBar),
            43 => Some(Role::PushButton),
            44 => Some(Role::RadioButton),
            45 => Some(Role::RadioMenuItem),
            46 => Some(Role::RootPane),
            47 => Some(Role::RowHeader),
            48 => Some(Role::ScrollBar),
            49 => Some(Role::ScrollPane),
            50 => Some(Role::Separator),
            51 => Some(Role::Slider),
            52 => Some(Role::SpinButton),
            53 => Some(Role::SplitPane),
            54 => Some(Role::StatusBar),
            55 => Some(Role::Table),
            56 => Some(Role::TableCell),
            57 => Some(Role::TableColumnHeader),
            58 => Some(Role::TableRowHeader),
            59 => Some(Role::TearoffMenuItem),
            60 => Some(Role::Terminal),
            61 => Some(Role::Text),
            62 => Some(Role::ToggleButton),
            63 => Some(Role::ToolBar),
            64 => Some(Role::ToolTip),
            65 => Some(Role::Tree),
            66 => Some(Role::TreeTable),
            67 => Some(Role::Unknown),
            68 => Some(Role::Viewport),
            69 => Some(Role::Window),
            70 => Some(Role::Extended),
            71 => Some(Role::Header),
            72 => Some(Role::Footer),
            73 => Some(Role::Paragraph),
            74 => Some(Role::Ruler),
            75 => Some(Role::Application),
            76 => Some(Role::Autocomplete),
            77 => Some(Role::Editbar),
            78 => Some(Role::Embedded),
            79 => Some(Role::Entry),
            80 => Some(Role::Chart),
            81 => Some(Role::Caption),
            82 => Some(Role::DocumentFrame),
            83 => Some(Role::Heading),
            84 => Some(Role::Page),
            85 => Some(Role::Section),
            86 => Some(Role::RedundantObject),
            87 => Some(Role::Form),
            88 => Some(Role::Link),
            89 => Some(Role::InputMethodWindow),
            90 => Some(Role::TableRow),
            91 => Some(Role::TreeItem),
            92 => Some(Role::DocumentSpreadsheet),
            93 => Some(Role::DocumentPresentation),
            94 => Some(Role::DocumentText),
            95 => Some(Role::DocumentWeb),
            96 => Some(Role::DocumentEmail),
            97 => Some(Role::Comment),
            98 => Some(Role::ListBox),
            99 => Some(Role::Grouping),
            100 => Some(Role::ImageMap),
            101 => Some(Role::Notification),
            102 => Some(Role::InfoBar),
            103 => Some(Role::LevelBar),
            104 => Some(Role::TitleBar),
            105 => Some(Role::BlockQuote),
            106 => Some(Role::Audio),
            107 => Some(Role::Video),
            108 => Some(Role::Definition),
            109 => Some(Role::Article),
            110 => Some(Role::Landmark),
            111 => Some(Role::Log),
            112 => Some(Role::Marquee),
            113 => Some(Role::Math),
            114 => Some(Role::Rating),
            115 => Some(Role::Timer),
            116 => Some(Role::Static),
            117 => Some(Role::MathFraction),
            118 => Some(Role::MathRoot),
            119 => Some(Role::Subscript),
            120 => Some(Role::Superscript),
            121 => Some(Role::DescriptionList),
            122 => Some(Role::DescriptionTerm),
            123 => Some(Role::DescriptionValue),
            124 => Some(Role::Footnote),
            125 => Some(Role::ContentDeletion),
            126 => Some(Role::ContentInsertion),
            127 => Some(Role::Mark),
            128 => Some(Role::Suggestion),
            129 => Some(Role::PushButtonMenu),
            _ => None,
        }
    }
}

/// Each role has a code of its own, and reading its code back gives the role.
pub proof fn lemma_role_code_round_trip(r: Role)
    ensures
        r.spec_code() <= LAST_ROLE_CODE,
        Role::of_code(r.spec_code()) == Some(r),
{
}

} // verus!
