use vstd::prelude::*;

use crate::config::{DiagnosticsConfig, OneDarkConfig};
use crate::highlights::{fmt_view, group, FmtType, GroupView};
use crate::palette::{Color, ColorPalette};

verus! {

/// The colours in which diagnostics are shown, one per severity.
#[derive(Clone, Copy, Debug)]
pub struct DiagnosticColors {
    pub error: Color,
    pub warn: Color,
    pub info: Color,
    pub hint: Color,
}

/// The diagnostic colours of a palette: its dark shades if diagnostics are
/// to be darker, else its plain ones.
pub open spec fn diagnostic_colors_of(p: ColorPalette, d: DiagnosticsConfig) -> DiagnosticColors {
    if d.darker {
        DiagnosticColors { error: p.dark_red, warn: p.dark_yellow, info: p.dark_cyan, hint: p.dark_purple }
    } else {
        DiagnosticColors { error: p.red, warn: p.yellow, info: p.cyan, hint: p.purple }
    }
}

/// The editor's own groups.
pub open spec fn common_groups(p: ColorPalette, c: OneDarkConfig) -> Seq<(Seq<char>, GroupView)> {
    seq![
        ("Normal"@, group(Some(p.fg), (if c.transparent { Some(p.bg0) } else { None }), None, None)),
        ("Terminal"@, group(Some(p.fg), (if c.transparent { Some(p.bg0) } else { None }), None, None)),
        ("EndOfBuffer"@, group(Some(if c.ending_tildes { p.bg2 } else { p.bg0 }), (if c.transparent { Some(p.bg0) } else { None }), None, None)),
        ("FoldColumn"@, group(Some(p.fg), (if c.transparent { Some(p.bg1) } else { None }), None, None)),
        ("Folded"@, group(Some(p.fg), (if c.transparent { Some(p.bg1) } else { None }), None, None)),
        ("SignColumn"@, group(Some(p.fg), (if c.transparent { Some(p.bg0) } else { None }), None, None)),
        ("ToolbarLine"@, group(Some(p.fg), None, None, None)),
        ("Cursor"@, group(None, None, None, Some(seq![FmtType::Reverse]))),
        ("vCursor"@, group(None, None, None, Some(seq![FmtType::Reverse]))),
        ("iCursor"@, group(None, None, None, Some(seq![FmtType::Reverse]))),
        ("lCursor"@, group(None, None, None, Some(seq![FmtType::Reverse]))),
        ("CursorIM"@, group(None, None, None, Some(seq![FmtType::Reverse]))),
        ("CursorColumn"@, group(None, Some(p.bg1), None, None)),
        ("CursorLine"@, group(None, Some(p.bg1), None, None)),
        ("ColorColumn"@, group(None, Some(p.bg1), None, None)),
        ("CursorLineNr"@, group(Some(p.fg), None, None, None)),
        ("LineNr"@, group(Some(p.grey), None, None, None)),
        ("Conceal"@, group(Some(p.grey), Some(p.bg1), None, None)),
        ("Added"@, group(Some(p.green), None, None, None)),
        ("Removed"@, group(Some(p.red), None, None, None)),
        ("Changed"@, group(Some(p.blue), None, None, None)),
        ("DiffAdd"@, group(None, Some(p.diff_add), None, None)),
        ("DiffChange"@, group(None, Some(p.diff_change), None, None)),
        ("DiffDelete"@, group(None, Some(p.diff_delete), None, None)),
        ("DiffText"@, group(None, Some(p.diff_text), None, None)),
        ("DiffAdded"@, group(Some(p.green), None, None, None)),
        ("DiffChanged"@, group(Some(p.blue), None, None, None)),
        ("DiffRemoved"@, group(Some(p.red), None, None, None)),
        ("DiffDeleted"@, group(Some(p.red), None, None, None)),
        ("DiffFile"@, group(Some(p.cyan), None, None, None)),
        ("DiffIndexLine"@, group(Some(p.grey), None, None, None)),
        ("Directory"@, group(Some(p.blue), None, None, None)),
        ("ErrorMsg"@, group(Some(p.red), None, None, Some(seq![FmtType::Bold]))),
        ("WarningMsg"@, group(Some(p.yellow), None, None, Some(seq![FmtType::Bold]))),
        ("MoreMsg"@, group(Some(p.blue), None, None, Some(seq![FmtType::Bold]))),
        ("CurSearch"@, group(Some(p.bg0), Some(p.orange), None, None)),
        ("IncSearch"@, group(Some(p.bg0), Some(p.orange), None, None)),
        ("Search"@, group(Some(p.bg0), Some(p.bg_yellow), None, None)),
        ("Substitute"@, group(Some(p.bg0), Some(p.green), None, None)),
        ("MatchParen"@, group(None, Some(p.grey), None, None)),
        ("NonText"@, group(Some(p.grey), None, None, None)),
        ("Whitespace"@, group(Some(p.grey), None, None, None)),
        ("SpecialKey"@, group(Some(p.grey), None, None, None)),
        ("Pmenu"@, group(Some(p.fg), Some(p.bg1), None, None)),
        ("PmenuSbar"@, group(None, Some(p.bg1), None, None)),
        ("PmenuSel"@, group(Some(p.bg0), Some(p.bg_blue), None, None)),
        ("WildMenu"@, group(Some(p.bg0), Some(p.blue), None, None)),
        ("PmenuThumb"@, group(None, Some(p.grey), None, None)),
        ("Question"@, group(Some(p.yellow), None, None, None)),
        ("SpellBad"@, group(None, None, Some(p.red), Some(seq![FmtType::Undercurl]))),
        ("SpellCap"@, group(None, None, Some(p.yellow), Some(seq![FmtType::Undercurl]))),
        ("SpellLocal"@, group(None, None, Some(p.blue), Some(seq![FmtType::Undercurl]))),
        ("SpellRare"@, group(None, None, Some(p.purple), Some(seq![FmtType::Undercurl]))),
        ("StatusLine"@, group(Some(p.fg), Some(p.bg2), None, None)),
        ("StatusLineTerm"@, group(Some(p.fg), Some(p.bg2), None, None)),
        ("StatusLineNC"@, group(Some(p.grey), Some(p.bg1), None, None)),
        ("StatusLineTermNC"@, group(Some(p.grey), Some(p.bg1), None, None)),
        ("TabLine"@, group(Some(p.fg), Some(p.bg1), None, None)),
        ("TabLineFill"@, group(Some(p.grey), Some(p.bg1), None, None)),
        ("TabLineSel"@, group(Some(p.bg0), Some(p.fg), None, None)),
        ("WinSeparator"@, group(Some(p.bg3), None, None, None)),
        ("Visual"@, group(None, Some(p.bg3), None, None)),
        ("VisualNOS"@, group(None, Some(p.bg2), None, Some(seq![FmtType::Underline]))),
        ("QuickFixLine"@, group(Some(p.blue), None, None, Some(seq![FmtType::Underline]))),
        ("Debug"@, group(Some(p.yellow), None, None, None)),
        ("debugPC"@, group(Some(p.bg0), Some(p.green), None, None)),
        ("debugBreakpoint"@, group(Some(p.bg0), Some(p.red), None, None)),
        ("ToolbarButton"@, group(Some(p.bg0), Some(p.bg_blue), None, None)),
        ("FloatBorder"@, group(Some(p.grey), Some(p.bg1), None, None)),
        ("NormalFloat"@, group(Some(p.fg), Some(p.bg1), None, None)),
    ]
}

/// The groups of the classic syntax highlighting.
pub open spec fn syntax_groups(p: ColorPalette, c: OneDarkConfig) -> Seq<(Seq<char>, GroupView)> {
    seq![
        ("String"@, group(Some(p.green), None, None, fmt_view(c.code_style.strings))),
        ("Character"@, group(Some(p.orange), None, None, None)),
        ("Number"@, group(Some(p.orange), None, None, None)),
        ("Float"@, group(Some(p.orange), None, None, None)),
        ("Boolean"@, group(Some(p.orange), None, None, None)),
        ("Type"@, group(Some(p.yellow), None, None, None)),
        ("Structure"@, group(Some(p.yellow), None, None, None)),
        ("StorageClass"@, group(Some(p.yellow), None, None, None)),
        ("Identifier"@, group(Some(p.red), None, None, fmt_view(c.code_style.variables))),
        ("Constant"@, group(Some(p.cyan), None, None, None)),
        ("PreProc"@, group(Some(p.purple), None, None, None)),
        ("PreCondit"@, group(Some(p.purple), None, None, None)),
        ("Include"@, group(Some(p.purple), None, None, None)),
        ("Keyword"@, group(Some(p.purple), None, None, fmt_view(c.code_style.keywords))),
        ("Define"@, group(Some(p.purple), None, None, None)),
        ("Typedef"@, group(Some(p.yellow), None, None, None)),
        ("Exception"@, group(Some(p.purple), None, None, None)),
        ("Conditional"@, group(Some(p.purple), None, None, fmt_view(c.code_style.keywords))),
        ("Repeat"@, group(Some(p.purple), None, None, fmt_view(c.code_style.keywords))),
        ("Statement"@, group(Some(p.purple), None, None, None)),
        ("Macro"@, group(Some(p.red), None, None, None)),
        ("Error"@, group(Some(p.purple), None, None, None)),
        ("Label"@, group(Some(p.purple), None, None, None)),
        ("Special"@, group(Some(p.red), None, None, None)),
        ("SpecialChar"@, group(Some(p.red), None, None, None)),
        ("Function"@, group(Some(p.blue), None, None, fmt_view(c.code_style.functions))),
        ("Operator"@, group(Some(p.purple), None, None, None)),
        ("Title"@, group(Some(p.cyan), None, None, None)),
        ("Tag"@, group(Some(p.green), None, None, None)),
        ("Delimiter"@, group(Some(p.light_grey), None, None, None)),
        ("Comment"@, group(Some(p.grey), None, None, fmt_view(c.code_style.comments))),
        ("SpecialComment"@, group(Some(p.grey), None, None, fmt_view(c.code_style.comments))),
        ("Todo"@, group(Some(p.red), None, None, fmt_view(c.code_style.comments))),
    ]
}

/// The groups of tree-sitter highlighting.
pub open spec fn treesitter_groups(p: ColorPalette, c: OneDarkConfig) -> Seq<(Seq<char>, GroupView)> {
    seq![
        ("TSAnnotation"@, group(Some(p.fg), None, None, None)),
        ("TSAttribute"@, group(Some(p.cyan), None, None, None)),
        ("TSBoolean"@, group(Some(p.orange), None, None, None)),
        ("TSCharacter"@, group(Some(p.orange), None, None, None)),
        ("TSComment"@, group(Some(p.grey), None, None, fmt_view(c.code_style.comments))),
        ("TSConditional"@, group(Some(p.purple), None, None, fmt_view(c.code_style.keywords))),
        ("TSConstant"@, group(Some(p.orange), None, None, None)),
        ("TSConstBuiltin"@, group(Some(p.orange), None, None, None)),
        ("TSConstMacro"@, group(Some(p.orange), None, None, None)),
        ("TSConstructor"@, group(Some(p.yellow), None, None, Some(seq![FmtType::Bold]))),
        ("TSError"@, group(Some(p.fg), None, None, None)),
        ("TSException"@, group(Some(p.purple), None, None, None)),
        ("TSField"@, group(Some(p.cyan), None, None, None)),
        ("TSFloat"@, group(Some(p.orange), None, None, None)),
        ("TSFunction"@, group(Some(p.blue), None, None, fmt_view(c.code_style.functions))),
        ("TSFuncBuiltin"@, group(Some(p.cyan), None, None, fmt_view(c.code_style.functions))),
        ("TSFuncMacro"@, group(Some(p.cyan), None, None, fmt_view(c.code_style.functions))),
        ("TSInclude"@, group(Some(p.purple), None, None, None)),
        ("TSKeyword"@, group(Some(p.purple), None, None, fmt_view(c.code_style.keywords))),
        ("TSKeywordFunction"@, group(Some(p.purple), None, None, fmt_view(c.code_style.functions))),
        ("TSKeywordOperator"@, group(Some(p.purple), None, None, fmt_view(c.code_style.keywords))),
        ("TSLabel"@, group(Some(p.red), None, None, None)),
        ("TSMethod"@, group(Some(p.blue), None, None, fmt_view(c.code_style.functions))),
        ("TSNamespace"@, group(Some(p.yellow), None, None, None)),
        ("TSNone"@, group(Some(p.fg), None, None, None)),
        ("TSNumber"@, group(Some(p.orange), None, None, None)),
        ("TSOperator"@, group(Some(p.fg), None, None, None)),
        ("TSParameter"@, group(Some(p.red), None, None, None)),
        ("TSParameterReference"@, group(Some(p.fg), None, None, None)),
        ("TSProperty"@, group(Some(p.cyan), None, None, None)),
        ("TSPunctDelimiter"@, group(Some(p.light_grey), None, None, None)),
        ("TSPunctBracket"@, group(Some(p.light_grey), None, None, None)),
        ("TSPunctSpecial"@, group(Some(p.red), None, None, None)),
        ("TSRepeat"@, group(Some(p.purple), None, None, fmt_view(c.code_style.keywords))),
        ("TSString"@, group(Some(p.green), None, None, fmt_view(c.code_style.strings))),
        ("TSStringRegex"@, group(Some(p.orange), None, None, fmt_view(c.code_style.strings))),
        ("TSStringEscape"@, group(Some(p.red), None, None, fmt_view(c.code_style.strings))),
        ("TSSymbol"@, group(Some(p.cyan), None, None, None)),
        ("TSTag"@, group(Some(p.purple), None, None, None)),
        ("TSTagDelimiter"@, group(Some(p.purple), None, None, None)),
        ("TSText"@, group(Some(p.fg), None, None, None)),
        ("TSStrong"@, group(Some(p.fg), None, None, Some(seq![FmtType::Bold]))),
        ("TSEmphasis"@, group(Some(p.fg), None, None, Some(seq![FmtType::Italic]))),
        ("TSUnderline"@, group(Some(p.fg), None, None, Some(seq![FmtType::Underline]))),
        ("TSStrike"@, group(Some(p.fg), None, None, Some(seq![FmtType::StrikeThrough]))),
        ("TSTitle"@, group(Some(p.orange), None, None, Some(seq![FmtType::Bold]))),
        ("TSLiteral"@, group(Some(p.green), None, None, None)),
        ("TSURI"@, group(Some(p.cyan), None, None, Some(seq![FmtType::Underline]))),
        ("TSMath"@, group(Some(p.fg), None, None, None)),
        ("TSTextReference"@, group(Some(p.blue), None, None, None)),
        ("TSEnvironment"@, group(Some(p.fg), None, None, None)),
        ("TSEnvironmentName"@, group(Some(p.fg), None, None, None)),
        ("TSNote"@, group(Some(p.fg), None, None, None)),
        ("TSWarning"@, group(Some(p.fg), None, None, None)),
        ("TSDanger"@, group(Some(p.fg), None, None, None)),
        ("TSType"@, group(Some(p.yellow), None, None, None)),
        ("TSTypeBuiltin"@, group(Some(p.orange), None, None, None)),
        ("TSVariable"@, group(Some(p.fg), None, None, fmt_view(c.code_style.variables))),
        ("TSVariableBuiltin"@, group(Some(p.red), None, None, fmt_view(c.code_style.variables))),
    ]
}

/// The groups of language-server diagnostics and references.
pub open spec fn lsp_groups(p: ColorPalette, c: OneDarkConfig, s: DiagnosticColors) -> Seq<(Seq<char>, GroupView)> {
    let d = diagnostic_colors_of(p, c.diagnostics);
    seq![
        ("LspCxxHlGroupEnumConstant"@, group(Some(p.orange), None, None, None)),
        ("LspCxxHlGroupMemberVariable"@, group(Some(p.orange), None, None, None)),
        ("LspCxxHlGroupNamespace"@, group(Some(p.blue), None, None, None)),
        ("LspCxxHlSkippedRegion"@, group(Some(p.grey), None, None, None)),
        ("LspCxxHlSkippedRegionBeginEnd"@, group(Some(p.red), None, None, None)),
        ("DiagnosticError"@, group(Some(p.red), None, None, None)),
        ("DiagnosticHint"@, group(Some(p.purple), None, None, None)),
        ("DiagnosticInfo"@, group(Some(p.cyan), None, None, None)),
        ("DiagnosticWarn"@, group(Some(p.yellow), None, None, None)),
        ("DiagnosticVirtualTextError"@, group(Some(d.error), (if c.diagnostics.background { Some(s.error) } else { None }), None, None)),
        ("DiagnosticVirtualTextWarn"@, group(Some(d.warn), (if c.diagnostics.background { Some(s.warn) } else { None }), None, None)),
        ("DiagnosticVirtualTextInfo"@, group(Some(d.info), (if c.diagnostics.background { Some(s.info) } else { None }), None, None)),
        ("DiagnosticVirtualTextHint"@, group(Some(d.hint), (if c.diagnostics.background { Some(s.hint) } else { None }), None, None)),
        ("DiagnosticUnderlineInfo"@, group(Some(d.info), (if c.diagnostics.background { Some(s.info) } else { None }), None, None)),
        ("DiagnosticUnderlineWarn"@, group(Some(d.warn), (if c.diagnostics.background { Some(s.warn) } else { None }), None, None)),
        ("LspReferenceText"@, group(None, Some(p.bg2), None, None)),
        ("LspReferenceWrite"@, group(None, Some(p.bg2), None, None)),
        ("LspReferenceRead"@, group(None, Some(p.bg2), None, None)),
        ("LspCodeLens"@, group(Some(p.grey), None, None, fmt_view(c.code_style.comments))),
        ("LspCodeLensSeparator"@, group(Some(p.grey), None, None, None)),
        ("LspDiagnosticsDefaultError"@, group(Some(p.red), None, None, None)),
        ("LspDiagnosticsDefaultHint"@, group(Some(p.purple), None, None, None)),
        ("LspDiagnosticsDefaultInformation"@, group(Some(p.cyan), None, None, None)),
        ("LspDiagnosticsDefaultWarning"@, group(Some(p.yellow), None, None, None)),
        ("LspDiagnosticsUnderlineError"@, group(None, None, Some(p.red), Some(if c.diagnostics.undercurl { seq![FmtType::Undercurl] } else { seq![FmtType::Underline] }))),
        ("LspDiagnosticsUnderlineHint"@, group(None, None, Some(p.purple), Some(if c.diagnostics.undercurl { seq![FmtType::Undercurl] } else { seq![FmtType::Underline] }))),
        ("LspDiagnosticsUnderlineInformation"@, group(None, None, Some(p.blue), Some(if c.diagnostics.undercurl { seq![FmtType::Undercurl] } else { seq![FmtType::Underline] }))),
        ("LspDiagnosticsUnderlineWarning"@, group(None, None, Some(p.yellow), Some(if c.diagnostics.undercurl { seq![FmtType::Undercurl] } else { seq![FmtType::Underline] }))),
        ("LspDiagnosticsVirtualTextError"@, group(Some(d.error), (if c.diagnostics.background { Some(s.error) } else { None }), None, None)),
        ("LspDiagnosticsVirtualTextWarning"@, group(Some(d.warn), (if c.diagnostics.background { Some(s.warn) } else { None }), None, None)),
        ("LspDiagnosticsVirtualTextInformation"@, group(Some(d.info), (if c.diagnostics.background { Some(s.info) } else { None }), None, None)),
        ("LspDiagnosticsVirtualTextHint"@, group(Some(d.hint), (if c.diagnostics.background { Some(s.hint) } else { None }), None, None)),
    ]
}

/// The groups of the completion menu itself, before its item kinds.
pub open spec fn completion_menu_groups(p: ColorPalette, c: OneDarkConfig) -> Seq<(Seq<char>, GroupView)> {
    seq![
        ("CmpItemAbbr"@, group(Some(p.fg), None, None, None)),
        ("CmpItemAbbrDeprecated"@, group(Some(p.light_grey), None, None, Some(seq![FmtType::StrikeThrough]))),
        ("CmpItemAbbrMatch"@, group(Some(p.cyan), None, None, None)),
        ("CmpItemAbbrMatchFuzzy"@, group(Some(p.cyan), None, None, Some(seq![FmtType::Underline]))),
        ("CmpItemMenu"@, group(Some(p.light_grey), None, None, None)),
        ("CmpItemKind"@, group(Some(p.purple), None, None, Some(if c.cmp_itemkind_reverse { seq![FmtType::Reverse] } else { Seq::<FmtType>::empty() }))),
    ]
}

/// The groups of the which-key plugin.
pub open spec fn whichkey_groups(p: ColorPalette, c: OneDarkConfig) -> Seq<(Seq<char>, GroupView)> {
    seq![
        ("WhichKey"@, group(Some(p.red), None, None, None)),
        ("WhichKeyDesc"@, group(Some(p.blue), None, None, None)),
        ("WhichKeyGroup"@, group(Some(p.orange), None, None, None)),
        ("WhichKeySeparator"@, group(Some(p.green), None, None, None)),
    ]
}

/// The groups of the gitgutter plugin.
pub open spec fn gitgutter_groups(p: ColorPalette, c: OneDarkConfig) -> Seq<(Seq<char>, GroupView)> {
    seq![
        ("GitGutterAdd"@, group(Some(p.green), None, None, None)),
        ("GitGutterChange"@, group(Some(p.blue), None, None, None)),
        ("GitGutterDelete"@, group(Some(p.red), None, None, None)),
    ]
}

/// The groups of the diffview plugin.
pub open spec fn diffview_groups(p: ColorPalette, c: OneDarkConfig) -> Seq<(Seq<char>, GroupView)> {
    seq![
        ("DiffviewFilePanelTitle"@, group(Some(p.blue), None, None, Some(seq![FmtType::Bold]))),
        ("DiffviewFilePanelCounter"@, group(Some(p.purple), None, None, Some(seq![FmtType::Bold]))),
        ("DiffviewFilePanelFileName"@, group(Some(p.fg), None, None, None)),
        ("DiffviewNormal"@, group(Some(p.fg), (if c.transparent { Some(p.bg0) } else { None }), None, None)),
        ("DiffviewCursorLine"@, group(None, Some(p.bg1), None, None)),
        ("DiffviewVertSplit"@, group(Some(p.bg3), None, None, None)),
        ("DiffviewSignColumn"@, group(Some(p.fg), (if c.transparent { Some(p.bg0) } else { None }), None, None)),
        ("DiffviewStatusLine"@, group(Some(p.fg), Some(p.bg2), None, None)),
        ("DiffviewStatusLineNC"@, group(Some(p.grey), Some(p.bg1), None, None)),
        ("DiffviewEndOfBuffer"@, group(Some(if c.ending_tildes { p.bg2 } else { p.bg0 }), (if c.transparent { Some(p.bg0) } else { None }), None, None)),
        ("DiffviewFilePanelRootPath"@, group(Some(p.grey), None, None, None)),
        ("DiffviewFilePanelPath"@, group(Some(p.grey), None, None, None)),
        ("DiffviewFilePanelInsertions"@, group(Some(p.green), None, None, None)),
        ("DiffviewFilePanelDeletions"@, group(Some(p.red), None, None, None)),
        ("DiffviewStatusAdded"@, group(Some(p.green), None, None, None)),
        ("DiffviewStatusUntracked"@, group(Some(p.blue), None, None, None)),
        ("DiffviewStatusModified"@, group(Some(p.blue), None, None, None)),
        ("DiffviewStatusRenamed"@, group(Some(p.blue), None, None, None)),
        ("DiffviewStatusCopied"@, group(Some(p.blue), None, None, None)),
        ("DiffviewStatusTypeChange"@, group(Some(p.blue), None, None, None)),
        ("DiffviewStatusUnmerged"@, group(Some(p.blue), None, None, None)),
        ("DiffviewStatusUnknown"@, group(Some(p.red), None, None, None)),
        ("DiffviewStatusDeleted"@, group(Some(p.red), None, None, None)),
        ("DiffviewStatusBroken"@, group(Some(p.red), None, None, None)),
    ]
}

/// The groups of the gitsigns plugin.
pub open spec fn gitsigns_groups(p: ColorPalette, c: OneDarkConfig) -> Seq<(Seq<char>, GroupView)> {
    seq![
        ("GitSignsAdd"@, group(Some(p.green), None, None, None)),
        ("GitSignsAddLn"@, group(Some(p.green), None, None, None)),
        ("GitSignsAddNr"@, group(Some(p.green), None, None, None)),
        ("GitSignsChange"@, group(Some(p.blue), None, None, None)),
        ("GitSignsChangeLn"@, group(Some(p.blue), None, None, None)),
        ("GitSignsChangeNr"@, group(Some(p.blue), None, None, None)),
        ("GitSignsDelete"@, group(Some(p.red), None, None, None)),
        ("GitSignsDeleteLn"@, group(Some(p.red), None, None, None)),
        ("GitSignsDeleteNr"@, group(Some(p.red), None, None, None)),
    ]
}

/// The groups of the telescope plugin.
pub open spec fn telescope_groups(p: ColorPalette, c: OneDarkConfig) -> Seq<(Seq<char>, GroupView)> {
    seq![
        ("TelescopeBorder"@, group(Some(p.red), None, None, None)),
        ("TelescopePromptBorder"@, group(Some(p.cyan), None, None, None)),
        ("TelescopeResultsBorder"@, group(Some(p.cyan), None, None, None)),
        ("TelescopePreviewBorder"@, group(Some(p.cyan), None, None, None)),
        ("TelescopeMatching"@, group(Some(p.orange), None, None, Some(seq![FmtType::Bold]))),
        ("TelescopePromptPrefix"@, group(Some(p.green), None, None, None)),
        ("TelescopeSelection"@, group(None, Some(p.bg2), None, None)),
        ("TelescopeSelectionCaret"@, group(Some(p.yellow), None, None, None)),
    ]
}

/// The groups of the indent-blankline plugin.
pub open spec fn indent_line_groups(p: ColorPalette, c: OneDarkConfig) -> Seq<(Seq<char>, GroupView)> {
    seq![
        ("IndentBlankLine1"@, group(Some(p.blue), None, None, None)),
        ("IndentBlankLine2"@, group(Some(p.green), None, None, None)),
        ("IndentBlankLine3"@, group(Some(p.cyan), None, None, None)),
        ("IndentBlankLine4"@, group(Some(p.light_grey), None, None, None)),
        ("IndentBlankLine5"@, group(Some(p.purple), None, None, None)),
        ("IndentBlankLine6"@, group(Some(p.red), None, None, None)),
        ("IndentBlanklineChar"@, group(Some(p.bg1), None, None, Some(seq![FmtType::NoCombine]))),
        ("IndentBlanklineContextChar"@, group(Some(p.grey), None, None, Some(seq![FmtType::NoCombine]))),
        ("IndentBlanklineContextStart"@, group(None, None, Some(p.grey), Some(seq![FmtType::Underline]))),
        ("IndentBlanklineContextSpaceChar"@, group(None, None, None, Some(seq![FmtType::NoCombine]))),
        ("IblIndent"@, group(Some(p.bg1), None, None, Some(seq![FmtType::NoCombine]))),
        ("IblWhitespace"@, group(Some(p.grey), None, None, Some(seq![FmtType::NoCombine]))),
        ("IblScope"@, group(Some(p.grey), None, None, Some(seq![FmtType::NoCombine]))),
    ]
}

/// The groups of the mini plugins.
pub open spec fn mini_groups(p: ColorPalette, c: OneDarkConfig) -> Seq<(Seq<char>, GroupView)> {
    mini_groups_first(p, c) + mini_groups_second(p, c)
}

/// The first part of the groups of the mini plugins.
pub open spec fn mini_groups_first(p: ColorPalette, c: OneDarkConfig) -> Seq<(Seq<char>, GroupView)> {
    seq![
        ("MiniAnimateCursor"@, group(None, None, None, Some(seq![FmtType::Reverse, FmtType::NoCombine]))),
        ("MiniAnimateNormalFloat"@, group(Some(p.fg), Some(p.bg1), None, None)),
        ("MiniClueBorder"@, group(Some(p.grey), Some(p.bg1), None, None)),
        ("MiniClueDescGroup"@, group(Some(p.yellow), None, None, None)),
        ("MiniClueDescSingle"@, group(Some(p.fg), Some(p.bg1), None, None)),
        ("MiniClueNextKey"@, group(Some(p.purple), None, None, None)),
        ("MiniClueNextKeyWithPostkeys"@, group(Some(p.red), None, None, None)),
        ("MiniClueSeparator"@, group(Some(p.cyan), None, None, None)),
        ("MiniClueTitle"@, group(Some(p.cyan), None, None, None)),
        ("MiniCompletionActiveParameter"@, group(None, None, None, Some(seq![FmtType::Underline]))),
        ("MiniCursorword"@, group(None, None, None, Some(seq![FmtType::Underline]))),
        ("MiniCursorwordCurrent"@, group(None, None, None, Some(seq![FmtType::Underline]))),
        ("MiniDepsChangeAdded"@, group(Some(p.green), None, None, None)),
        ("MiniDepsChangeRemoved"@, group(Some(p.red), None, None, None)),
        ("MiniDepsHint"@, group(Some(p.purple), None, None, None)),
        ("MiniDepsInfo"@, group(Some(p.cyan), None, None, None)),
        ("MiniDepsMsgBreaking"@, group(Some(p.yellow), None, None, None)),
        ("MiniDepsPlaceholder"@, group(Some(p.grey), None, None, fmt_view(c.code_style.comments))),
        ("MiniDepsTitle"@, group(Some(p.cyan), None, None, None)),
        ("MiniDepsTitleError"@, group(None, Some(p.diff_delete), None, None)),
        ("MiniDepsTitleSame"@, group(None, Some(p.diff_text), None, None)),
        ("MiniDepsTitleUpdate"@, group(None, Some(p.diff_add), None, None)),
        ("MiniDiffSignAdd"@, group(Some(p.green), None, None, None)),
        ("MiniDiffSignChange"@, group(Some(p.blue), None, None, None)),
        ("MiniDiffSignDelete"@, group(Some(p.red), None, None, None)),
        ("MiniDiffOverAdd"@, group(None, Some(p.diff_add), None, None)),
        ("MiniDiffOverChange"@, group(None, Some(p.diff_text), None, None)),
        ("MiniDiffOverContext"@, group(None, Some(p.diff_change), None, None)),
        ("MiniDiffOverDelete"@, group(None, Some(p.diff_delete), None, None)),
        ("MiniFilesBorder"@, group(Some(p.grey), Some(p.bg1), None, None)),
        ("MiniFilesBorderModified"@, group(Some(p.yellow), None, None, None)),
        ("MiniFilesCursorLine"@, group(None, Some(p.bg2), None, None)),
        ("MiniFilesDirectory"@, group(Some(p.blue), None, None, None)),
        ("MiniFilesFile"@, group(Some(p.fg), None, None, None)),
        ("MiniFilesNormal"@, group(Some(p.fg), Some(p.bg1), None, None)),
        ("MiniFilesTitle"@, group(Some(p.cyan), None, None, None)),
        ("MiniFilesTitleFocused"@, group(Some(p.cyan), None, None, Some(seq![FmtType::Bold]))),
        ("MiniHipatternsFixme"@, group(Some(p.bg0), Some(p.red), None, Some(seq![FmtType::Bold]))),
        ("MiniHipatternsHack"@, group(Some(p.bg0), Some(p.yellow), None, Some(seq![FmtType::Bold]))),
        ("MiniHipatternsNote"@, group(Some(p.bg0), Some(p.cyan), None, Some(seq![FmtType::Bold]))),
        ("MiniHipatternsTodo"@, group(Some(p.bg0), Some(p.purple), None, Some(seq![FmtType::Bold]))),
        ("MiniIconsAzure"@, group(Some(p.bg_blue), None, None, None)),
        ("MiniIconsBlue"@, group(Some(p.blue), None, None, None)),
        ("MiniIconsCyan"@, group(Some(p.cyan), None, None, None)),
        ("MiniIconsGreen"@, group(Some(p.green), None, None, None)),
        ("MiniIconsGrey"@, group(Some(p.fg), None, None, None)),
        ("MiniIconsOrange"@, group(Some(p.orange), None, None, None)),
        ("MiniIconsPurple"@, group(Some(p.purple), None, None, None)),
        ("MiniIconsRed"@, group(Some(p.red), None, None, None)),
        ("MiniIconsYellow"@, group(Some(p.yellow), None, None, None)),
        ("MiniIndentscopeSymbol"@, group(Some(p.grey), None, None, None)),
        ("MiniIndentscopePrefix"@, group(None, None, None, Some(seq![FmtType::NoCombine]))),
        ("MiniJump"@, group(Some(p.purple), None, Some(p.purple), Some(seq![FmtType::Underline]))),
        ("MiniJump2dDim"@, group(Some(p.grey), None, None, Some(seq![FmtType::NoCombine]))),
        ("MiniJump2dSpot"@, group(Some(p.red), None, None, Some(seq![FmtType::Bold, FmtType::NoCombine]))),
    ]
}

/// The second part of the groups of the mini plugins.
pub open spec fn mini_groups_second(p: ColorPalette, c: OneDarkConfig) -> Seq<(Seq<char>, GroupView)> {
    seq![
        ("MiniJump2dSpotAhead"@, group(Some(p.cyan), Some(p.bg0), None, Some(seq![FmtType::NoCombine]))),
        ("MiniJump2dSpotUnique"@, group(Some(p.yellow), None, None, Some(seq![FmtType::Bold, FmtType::NoCombine]))),
        ("MiniMapNormal"@, group(Some(p.fg), Some(p.bg1), None, None)),
        ("MiniMapSymbolCount"@, group(Some(p.red), None, None, None)),
        ("MiniMapSymbolLine"@, group(Some(p.cyan), None, None, None)),
        ("MiniMapSymbolView"@, group(Some(p.light_grey), None, None, None)),
        ("MiniNotifyBorder"@, group(Some(p.grey), Some(p.bg1), None, None)),
        ("MiniNotifyNormal"@, group(Some(p.fg), Some(p.bg1), None, None)),
        ("MiniNotifyTitle"@, group(Some(p.cyan), None, None, None)),
        ("MiniOperatorsExchangeFrom"@, group(Some(p.bg0), Some(p.orange), None, None)),
        ("MiniPickBorder"@, group(Some(p.grey), Some(p.bg1), None, None)),
        ("MiniPickBorderBusy"@, group(Some(p.yellow), None, None, None)),
        ("MiniPickBorderText"@, group(Some(p.cyan), None, None, Some(seq![FmtType::Bold]))),
        ("MiniPickIconDirectory"@, group(Some(p.blue), None, None, None)),
        ("MiniPickIconFile"@, group(Some(p.fg), Some(p.bg1), None, None)),
        ("MiniPickHeader"@, group(Some(p.purple), None, None, None)),
        ("MiniPickMatchCurrent"@, group(None, Some(p.bg2), None, None)),
        ("MiniPickMatchMarked"@, group(None, Some(p.diff_text), None, None)),
        ("MiniPickMatchRanges"@, group(Some(p.purple), None, None, None)),
        ("MiniPickNormal"@, group(Some(p.fg), Some(p.bg1), None, None)),
        ("MiniPickPreviewLine"@, group(None, Some(p.bg2), None, None)),
        ("MiniPickPreviewRegion"@, group(Some(p.bg0), Some(p.orange), None, None)),
        ("MiniPickPrompt"@, group(Some(p.cyan), None, None, None)),
        ("MiniStarterCurrent"@, group(None, None, None, Some(seq![FmtType::NoCombine]))),
        ("MiniStarterFooter"@, group(Some(p.dark_red), None, None, Some(seq![FmtType::Italic]))),
        ("MiniStarterHeader"@, group(Some(p.yellow), None, None, None)),
        ("MiniStarterInactive"@, group(Some(p.grey), None, None, fmt_view(c.code_style.comments))),
        ("MiniStarterItem"@, group(Some(p.fg), Some(p.bg0), None, None)),
        ("MiniStarterItemBullet"@, group(Some(p.grey), None, None, None)),
        ("MiniStarterItemPrefix"@, group(Some(p.yellow), None, None, None)),
        ("MiniStarterSection"@, group(Some(p.light_grey), None, None, None)),
        ("MiniStarterQuery"@, group(Some(p.cyan), None, None, None)),
        ("MiniStatuslineDevinfo"@, group(Some(p.fg), Some(p.bg2), None, None)),
        ("MiniStatuslineFileinfo"@, group(Some(p.fg), Some(p.bg2), None, None)),
        ("MiniStatuslineFilename"@, group(Some(p.grey), Some(p.bg1), None, None)),
        ("MiniStatuslineInactive"@, group(Some(p.grey), Some(p.bg0), None, None)),
        ("MiniStatuslineModeCommand"@, group(Some(p.bg0), Some(p.yellow), None, Some(seq![FmtType::Bold]))),
        ("MiniStatuslineModeInsert"@, group(Some(p.bg0), Some(p.blue), None, Some(seq![FmtType::Bold]))),
        ("MiniStatuslineModeNormal"@, group(Some(p.bg0), Some(p.green), None, Some(seq![FmtType::Bold]))),
        ("MiniStatuslineModeOther"@, group(Some(p.bg0), Some(p.cyan), None, Some(seq![FmtType::Bold]))),
        ("MiniStatuslineModeReplace"@, group(Some(p.bg0), Some(p.red), None, Some(seq![FmtType::Bold]))),
        ("MiniStatuslineModeVisual"@, group(Some(p.bg0), Some(p.purple), None, Some(seq![FmtType::Bold]))),
        ("MiniSurround"@, group(Some(p.bg0), Some(p.orange), None, None)),
        ("MiniTablineCurrent"@, group(None, None, None, Some(seq![FmtType::Bold]))),
        ("MiniTablineFill"@, group(Some(p.grey), Some(p.bg1), None, None)),
        ("MiniTablineHidden"@, group(Some(p.fg), Some(p.bg1), None, None)),
        ("MiniTablineModifiedCurrent"@, group(Some(p.orange), None, None, Some(seq![FmtType::Bold, FmtType::Italic]))),
        ("MiniTablineModifiedHidden"@, group(Some(p.light_grey), Some(p.bg1), None, Some(seq![FmtType::Italic]))),
        ("MiniTablineModifiedVisible"@, group(Some(p.yellow), Some(p.bg0), None, Some(seq![FmtType::Italic]))),
        ("MiniTablineTabpagesection"@, group(Some(p.bg0), Some(p.bg_yellow), None, None)),
        ("MiniTablineVisible"@, group(Some(p.light_grey), Some(p.bg0), None, None)),
        ("MiniTestEmphasis"@, group(None, None, None, Some(seq![FmtType::Bold]))),
        ("MiniTestFail"@, group(Some(p.red), None, None, Some(seq![FmtType::Bold]))),
        ("MiniTestPass"@, group(Some(p.green), None, None, Some(seq![FmtType::Bold]))),
        ("MiniTrailspace"@, group(None, Some(p.red), None, None)),
    ]
}

/// The groups of C.
pub open spec fn c_groups(p: ColorPalette, c: OneDarkConfig) -> Seq<(Seq<char>, GroupView)> {
    seq![
        ("cInclude"@, group(Some(p.blue), None, None, None)),
        ("cStorageClass"@, group(Some(p.purple), None, None, None)),
        ("cTypedef"@, group(Some(p.purple), None, None, None)),
        ("cDefine"@, group(Some(p.cyan), None, None, None)),
        ("cTSInclude"@, group(Some(p.blue), None, None, None)),
        ("cTSConstant"@, group(Some(p.cyan), None, None, None)),
        ("cTSConstMacro"@, group(Some(p.purple), None, None, None)),
        ("cTSOperator"@, group(Some(p.purple), None, None, None)),
    ]
}

/// The groups of C++.
pub open spec fn cpp_groups(p: ColorPalette, c: OneDarkConfig) -> Seq<(Seq<char>, GroupView)> {
    seq![
        ("cppStatement"@, group(Some(p.purple), None, None, Some(seq![FmtType::Bold]))),
        ("cppTSInclude"@, group(Some(p.blue), None, None, None)),
        ("cppTSConstant"@, group(Some(p.cyan), None, None, None)),
        ("cppTSConstMacro"@, group(Some(p.purple), None, None, None)),
        ("cppTSOperator"@, group(Some(p.purple), None, None, None)),
    ]
}

/// The groups of Markdown.
pub open spec fn markdown_groups(p: ColorPalette, c: OneDarkConfig) -> Seq<(Seq<char>, GroupView)> {
    seq![
        ("markdownBlockquote"@, group(Some(p.grey), None, None, None)),
        ("markdownBold"@, group(None, None, None, Some(seq![FmtType::Bold]))),
        ("markdownBoldDelimiter"@, group(Some(p.grey), None, None, None)),
        ("markdownCode"@, group(Some(p.green), None, None, None)),
        ("markdownCodeBlock"@, group(Some(p.green), None, None, None)),
        ("markdownCodeDelimiter"@, group(Some(p.yellow), None, None, None)),
        ("markdownH1"@, group(Some(p.red), None, None, Some(seq![FmtType::Bold]))),
        ("markdownH2"@, group(Some(p.purple), None, None, Some(seq![FmtType::Bold]))),
        ("markdownH3"@, group(Some(p.orange), None, None, Some(seq![FmtType::Bold]))),
        ("markdownH4"@, group(Some(p.red), None, None, Some(seq![FmtType::Bold]))),
        ("markdownH5"@, group(Some(p.purple), None, None, Some(seq![FmtType::Bold]))),
        ("markdownH6"@, group(Some(p.orange), None, None, Some(seq![FmtType::Bold]))),
        ("markdownHeadingDelimiter"@, group(Some(p.grey), None, None, None)),
        ("markdownHeadingRule"@, group(Some(p.grey), None, None, None)),
        ("markdownId"@, group(Some(p.yellow), None, None, None)),
        ("markdownIdDeclaration"@, group(Some(p.red), None, None, None)),
        ("markdownItalic"@, group(None, None, None, Some(seq![FmtType::Italic]))),
        ("markdownItalicDelimiter"@, group(Some(p.grey), None, None, Some(seq![FmtType::Italic]))),
        ("markdownLinkDelimiter"@, group(Some(p.grey), None, None, None)),
        ("markdownLinkText"@, group(Some(p.red), None, None, None)),
        ("markdownLinkTextDelimiter"@, group(Some(p.grey), None, None, None)),
        ("markdownListMarker"@, group(Some(p.red), None, None, None)),
        ("markdownOrderedListMarker"@, group(Some(p.red), None, None, None)),
        ("markdownRule"@, group(Some(p.purple), None, None, None)),
        ("markdownUrl"@, group(Some(p.blue), None, None, Some(seq![FmtType::Underline]))),
        ("markdownUrlDelimiter"@, group(Some(p.grey), None, None, None)),
        ("markdownUrlTitleDelimiter"@, group(Some(p.green), None, None, None)),
    ]
}

/// The groups of PHP.
pub open spec fn php_groups(p: ColorPalette, c: OneDarkConfig) -> Seq<(Seq<char>, GroupView)> {
    seq![
        ("phpFunctions"@, group(Some(p.fg), None, None, fmt_view(c.code_style.functions))),
        ("phpMethods"@, group(Some(p.cyan), None, None, None)),
        ("phpStructure"@, group(Some(p.purple), None, None, None)),
        ("phpOperator"@, group(Some(p.purple), None, None, None)),
        ("phpMemberSelector"@, group(Some(p.fg), None, None, None)),
        ("phpVarSelector"@, group(Some(p.orange), None, None, fmt_view(c.code_style.variables))),
        ("phpIdentifier"@, group(Some(p.orange), None, None, fmt_view(c.code_style.variables))),
        ("phpBoolean"@, group(Some(p.cyan), None, None, None)),
        ("phpNumber"@, group(Some(p.orange), None, None, None)),
        ("phpHereDoc"@, group(Some(p.green), None, None, None)),
        ("phpNowDoc"@, group(Some(p.green), None, None, None)),
        ("phpSCKeyword"@, group(Some(p.purple), None, None, fmt_view(c.code_style.keywords))),
        ("phpFCKeyword"@, group(Some(p.purple), None, None, fmt_view(c.code_style.keywords))),
        ("phpRegion"@, group(Some(p.blue), None, None, None)),
    ]
}

/// The groups of Scala.
pub open spec fn scala_groups(p: ColorPalette, c: OneDarkConfig) -> Seq<(Seq<char>, GroupView)> {
    seq![
        ("scalaNameDefinition"@, group(Some(p.fg), None, None, None)),
        ("scalaInterpolationBoundary"@, group(Some(p.purple), None, None, None)),
        ("scalaInterpolation"@, group(Some(p.purple), None, None, None)),
        ("scalaTypeOperator"@, group(Some(p.red), None, None, None)),
        ("scalaOperator"@, group(Some(p.red), None, None, None)),
        ("scalaKeywordModifier"@, group(Some(p.red), None, None, fmt_view(c.code_style.keywords))),
    ]
}

/// The groups of TeX.
pub open spec fn tex_groups(p: ColorPalette, c: OneDarkConfig) -> Seq<(Seq<char>, GroupView)> {
    seq![
        ("latexTSInclude"@, group(Some(p.blue), None, None, None)),
        ("latexTSFuncMacro"@, group(Some(p.fg), None, None, fmt_view(c.code_style.functions))),
        ("latexTSEnvironment"@, group(Some(p.cyan), None, None, Some(seq![FmtType::Bold]))),
        ("latexTSEnvironmentName"@, group(Some(p.yellow), None, None, None)),
        ("texCmdEnv"@, group(Some(p.cyan), None, None, None)),
        ("texEnvArgName"@, group(Some(p.yellow), None, None, None)),
        ("latexTSTitle"@, group(Some(p.green), None, None, None)),
        ("latexTSType"@, group(Some(p.blue), None, None, None)),
        ("latexTSMath"@, group(Some(p.orange), None, None, None)),
        ("texMathZoneX"@, group(Some(p.orange), None, None, None)),
        ("texMathZoneXX"@, group(Some(p.orange), None, None, None)),
        ("texMathDelimZone"@, group(Some(p.light_grey), None, None, None)),
        ("texMathDelim"@, group(Some(p.purple), None, None, None)),
        ("texMathOper"@, group(Some(p.red), None, None, None)),
        ("texCmd"@, group(Some(p.purple), None, None, None)),
        ("texCmdPart"@, group(Some(p.blue), None, None, None)),
        ("texCmdPackage"@, group(Some(p.blue), None, None, None)),
        ("texPgfType"@, group(Some(p.yellow), None, None, None)),
    ]
}

/// The groups of Vim script.
pub open spec fn vim_groups(p: ColorPalette, c: OneDarkConfig) -> Seq<(Seq<char>, GroupView)> {
    seq![
        ("vimOption"@, group(Some(p.red), None, None, None)),
        ("vimSetEqual"@, group(Some(p.yellow), None, None, None)),
        ("vimMap"@, group(Some(p.purple), None, None, None)),
        ("vimMapModKey"@, group(Some(p.orange), None, None, None)),
        ("vimNotation"@, group(Some(p.red), None, None, None)),
        ("vimMapLhs"@, group(Some(p.fg), None, None, None)),
        ("vimMapRhs"@, group(Some(p.blue), None, None, None)),
        ("vimVar"@, group(Some(p.fg), None, None, fmt_view(c.code_style.variables))),
        ("vimCommentTitle"@, group(Some(p.light_grey), None, None, fmt_view(c.code_style.comments))),
    ]
}

/// The colour of each kind of completion item.
pub open spec fn completion_kind_colors(p: ColorPalette) -> Seq<(&'static str, Color)> {
    seq![
        ("CmpItemKindDefault", p.purple),
        ("CmpItemKindArray", p.yellow),
        ("CmpItemKindBoolean", p.orange),
        ("CmpItemKindClass", p.yellow),
        ("CmpItemKindColor", p.green),
        ("CmpItemKindConstant", p.orange),
        ("CmpItemKindConstructor", p.blue),
        ("CmpItemKindEnum", p.purple),
        ("CmpItemKindEnumMember", p.yellow),
        ("CmpItemKindEvent", p.yellow),
        ("CmpItemKindField", p.purple),
        ("CmpItemKindFile", p.blue),
        ("CmpItemKindFolder", p.orange),
        ("CmpItemKindFunction", p.blue),
        ("CmpItemKindInterface", p.green),
        ("CmpItemKindKey", p.cyan),
        ("CmpItemKindKeyword", p.cyan),
        ("CmpItemKindMethod", p.blue),
        ("CmpItemKindModule", p.orange),
        ("CmpItemKindNamespace", p.red),
        ("CmpItemKindNull", p.grey),
        ("CmpItemKindNumber", p.orange),
        ("CmpItemKindObject", p.red),
        ("CmpItemKindOperator", p.red),
        ("CmpItemKindPackage", p.yellow),
        ("CmpItemKindProperty", p.cyan),
        ("CmpItemKindReference", p.orange),
        ("CmpItemKindSnippet", p.red),
        ("CmpItemKindString", p.green),
        ("CmpItemKindStruct", p.purple),
        ("CmpItemKindText", p.light_grey),
        ("CmpItemKindTypeParameter", p.red),
        ("CmpItemKindUnit", p.green),
        ("CmpItemKindValue", p.orange),
        ("CmpItemKindVariable", p.purple),
    ]
}

/// The attributes of a completion item kind: reversed, or an empty list.
pub open spec fn completion_kind_fmt(reverse: bool) -> Option<Seq<FmtType>> {
    Some(if reverse { seq![FmtType::Reverse] } else { Seq::<FmtType>::empty() })
}

/// The group of a completion item kind in its colour.
pub open spec fn completion_kind_group(kind: (&'static str, Color), reverse: bool) -> (Seq<char>, GroupView) {
    (kind.0@, group(Some(kind.1), None, None, completion_kind_fmt(reverse)))
}

/// The groups of the completion menu: its own, then one per item kind.
pub open spec fn completion_groups(p: ColorPalette, c: OneDarkConfig) -> Seq<(Seq<char>, GroupView)> {
    completion_menu_groups(p, c) + completion_kind_colors(p).map_values(
        |k: (&'static str, Color)| completion_kind_group(k, c.cmp_itemkind_reverse),
    )
}

/// The highlight groups of the scheme as values: by kind, then by plugin and
/// by language.
pub struct HighlightsView {
    pub common: Seq<(Seq<char>, GroupView)>,
    pub syntax: Seq<(Seq<char>, GroupView)>,
    pub treesitter: Seq<(Seq<char>, GroupView)>,
    pub lsp: Option<Seq<(Seq<char>, GroupView)>>,
    pub plugins: Seq<(Seq<char>, Seq<(Seq<char>, GroupView)>)>,
    pub langs: Seq<(Seq<char>, Seq<(Seq<char>, GroupView)>)>,
}

/// The groups that the scheme sets for a palette and a configuration, given
/// the background shades of the diagnostic colours.
#[verifier::opaque]
pub open spec fn scheme_highlights(p: ColorPalette, c: OneDarkConfig, s: DiagnosticColors) -> HighlightsView {
    HighlightsView {
        common: common_groups(p, c),
        syntax: syntax_groups(p, c),
        treesitter: treesitter_groups(p, c),
        lsp: None,
        plugins: seq![
            ("lsp"@, lsp_groups(p, c, s)),
            ("cmp"@, completion_groups(p, c)),
            ("whichkey"@, whichkey_groups(p, c)),
            ("gitgutter"@, gitgutter_groups(p, c)),
            ("diffview"@, diffview_groups(p, c)),
            ("gitsigns"@, gitsigns_groups(p, c)),
            ("telescope"@, telescope_groups(p, c)),
            ("indent_blankline"@, indent_line_groups(p, c)),
            ("mini"@, mini_groups(p, c)),
        ],
        langs: seq![
            ("c"@, c_groups(p, c)),
            ("cpp"@, cpp_groups(p, c)),
            ("markdown"@, markdown_groups(p, c)),
            ("php"@, php_groups(p, c)),
            ("scala"@, scala_groups(p, c)),
            ("tex"@, tex_groups(p, c)),
            ("vim"@, vim_groups(p, c)),
        ],
    }
}


/// The table holds a group of that name with that foreground colour and that
/// attribute list.
pub open spec fn holds_styled_group(
    t: Seq<(Seq<char>, GroupView)>,
    name: Seq<char>,
    fg: Color,
    fmt: Option<Seq<FmtType>>,
) -> bool {
    exists|i: int|
        0 <= i < t.len() && #[trigger] t[i].0 == name && t[i].1.fg == Some(fg) && t[i].1.fmt == fmt
}

/// The user's code styles reach the syntax groups: each group that shows
/// functions, keywords, strings, variables or comments carries the
/// attribute list configured for that class.
pub proof fn law_code_styles_in_syntax_groups(p: ColorPalette, c: OneDarkConfig)
    ensures
        holds_styled_group(syntax_groups(p, c), "String"@, p.green, fmt_view(c.code_style.strings)),
        holds_styled_group(syntax_groups(p, c), "Identifier"@, p.red, fmt_view(c.code_style.variables)),
        holds_styled_group(syntax_groups(p, c), "Keyword"@, p.purple, fmt_view(c.code_style.keywords)),
        holds_styled_group(syntax_groups(p, c), "Conditional"@, p.purple, fmt_view(c.code_style.keywords)),
        holds_styled_group(syntax_groups(p, c), "Repeat"@, p.purple, fmt_view(c.code_style.keywords)),
        holds_styled_group(syntax_groups(p, c), "Function"@, p.blue, fmt_view(c.code_style.functions)),
        holds_styled_group(syntax_groups(p, c), "Comment"@, p.grey, fmt_view(c.code_style.comments)),
        holds_styled_group(syntax_groups(p, c), "SpecialComment"@, p.grey, fmt_view(c.code_style.comments)),
        holds_styled_group(syntax_groups(p, c), "Todo"@, p.red, fmt_view(c.code_style.comments)),
{
    let t = syntax_groups(p, c);
    assert(t[0].0 == "String"@ && t[0].1.fg == Some(p.green) && t[0].1.fmt == fmt_view(c.code_style.strings));
    assert(t[8].0 == "Identifier"@ && t[8].1.fg == Some(p.red) && t[8].1.fmt == fmt_view(c.code_style.variables));
    assert(t[13].0 == "Keyword"@ && t[13].1.fg == Some(p.purple) && t[13].1.fmt == fmt_view(c.code_style.keywords));
    assert(t[17].0 == "Conditional"@ && t[17].1.fg == Some(p.purple) && t[17].1.fmt == fmt_view(c.code_style.keywords));
    assert(t[18].0 == "Repeat"@ && t[18].1.fg == Some(p.purple) && t[18].1.fmt == fmt_view(c.code_style.keywords));
    assert(t[25].0 == "Function"@ && t[25].1.fg == Some(p.blue) && t[25].1.fmt == fmt_view(c.code_style.functions));
    assert(t[30].0 == "Comment"@ && t[30].1.fg == Some(p.grey) && t[30].1.fmt == fmt_view(c.code_style.comments));
    assert(t[31].0 == "SpecialComment"@ && t[31].1.fg == Some(p.grey) && t[31].1.fmt == fmt_view(c.code_style.comments));
    assert(t[32].0 == "Todo"@ && t[32].1.fg == Some(p.red) && t[32].1.fmt == fmt_view(c.code_style.comments));
}

/// The user's code styles reach the tree-sitter groups: each group that shows
/// functions, keywords, strings, variables or comments carries the
/// attribute list configured for that class.
pub proof fn law_code_styles_in_treesitter_groups(p: ColorPalette, c: OneDarkConfig)
    ensures
        holds_styled_group(treesitter_groups(p, c), "TSComment"@, p.grey, fmt_view(c.code_style.comments)),
        holds_styled_group(treesitter_groups(p, c), "TSConditional"@, p.purple, fmt_view(c.code_style.keywords)),
        holds_styled_group(treesitter_groups(p, c), "TSFunction"@, p.blue, fmt_view(c.code_style.functions)),
        holds_styled_group(treesitter_groups(p, c), "TSFuncBuiltin"@, p.cyan, fmt_view(c.code_style.functions)),
        holds_styled_group(treesitter_groups(p, c), "TSFuncMacro"@, p.cyan, fmt_view(c.code_style.functions)),
        holds_styled_group(treesitter_groups(p, c), "TSKeyword"@, p.purple, fmt_view(c.code_style.keywords)),
        holds_styled_group(treesitter_groups(p, c), "TSKeywordFunction"@, p.purple, fmt_view(c.code_style.functions)),
        holds_styled_group(treesitter_groups(p, c), "TSKeywordOperator"@, p.purple, fmt_view(c.code_style.keywords)),
        holds_styled_group(treesitter_groups(p, c), "TSMethod"@, p.blue, fmt_view(c.code_style.functions)),
        holds_styled_group(treesitter_groups(p, c), "TSRepeat"@, p.purple, fmt_view(c.code_style.keywords)),
        holds_styled_group(treesitter_groups(p, c), "TSString"@, p.green, fmt_view(c.code_style.strings)),
        holds_styled_group(treesitter_groups(p, c), "TSStringRegex"@, p.orange, fmt_view(c.code_style.strings)),
        holds_styled_group(treesitter_groups(p, c), "TSStringEscape"@, p.red, fmt_view(c.code_style.strings)),
        holds_styled_group(treesitter_groups(p, c), "TSVariable"@, p.fg, fmt_view(c.code_style.variables)),
        holds_styled_group(treesitter_groups(p, c), "TSVariableBuiltin"@, p.red, fmt_view(c.code_style.variables)),
{
    let t = treesitter_groups(p, c);
    assert(t[4].0 == "TSComment"@ && t[4].1.fg == Some(p.grey) && t[4].1.fmt == fmt_view(c.code_style.comments));
    assert(t[5].0 == "TSConditional"@ && t[5].1.fg == Some(p.purple) && t[5].1.fmt == fmt_view(c.code_style.keywords));
    assert(t[14].0 == "TSFunction"@ && t[14].1.fg == Some(p.blue) && t[14].1.fmt == fmt_view(c.code_style.functions));
    assert(t[15].0 == "TSFuncBuiltin"@ && t[15].1.fg == Some(p.cyan) && t[15].1.fmt == fmt_view(c.code_style.functions));
    assert(t[16].0 == "TSFuncMacro"@ && t[16].1.fg == Some(p.cyan) && t[16].1.fmt == fmt_view(c.code_style.functions));
    assert(t[18].0 == "TSKeyword"@ && t[18].1.fg == Some(p.purple) && t[18].1.fmt == fmt_view(c.code_style.keywords));
    assert(t[19].0 == "TSKeywordFunction"@ && t[19].1.fg == Some(p.purple) && t[19].1.fmt == fmt_view(c.code_style.functions));
    assert(t[20].0 == "TSKeywordOperator"@ && t[20].1.fg == Some(p.purple) && t[20].1.fmt == fmt_view(c.code_style.keywords));
    assert(t[22].0 == "TSMethod"@ && t[22].1.fg == Some(p.blue) && t[22].1.fmt == fmt_view(c.code_style.functions));
    assert(t[33].0 == "TSRepeat"@ && t[33].1.fg == Some(p.purple) && t[33].1.fmt == fmt_view(c.code_style.keywords));
    assert(t[34].0 == "TSString"@ && t[34].1.fg == Some(p.green) && t[34].1.fmt == fmt_view(c.code_style.strings));
    assert(t[35].0 == "TSStringRegex"@ && t[35].1.fg == Some(p.orange) && t[35].1.fmt == fmt_view(c.code_style.strings));
    assert(t[36].0 == "TSStringEscape"@ && t[36].1.fg == Some(p.red) && t[36].1.fmt == fmt_view(c.code_style.strings));
    assert(t[57].0 == "TSVariable"@ && t[57].1.fg == Some(p.fg) && t[57].1.fmt == fmt_view(c.code_style.variables));
    assert(t[58].0 == "TSVariableBuiltin"@ && t[58].1.fg == Some(p.red) && t[58].1.fmt == fmt_view(c.code_style.variables));
}

/// The user's code styles reach the language-server groups: each group that shows
/// functions, keywords, strings, variables or comments carries the
/// attribute list configured for that class.
pub proof fn law_code_styles_in_lsp_groups(p: ColorPalette, c: OneDarkConfig, s: DiagnosticColors)
    ensures
        holds_styled_group(lsp_groups(p, c, s), "LspCodeLens"@, p.grey, fmt_view(c.code_style.comments)),
{
    let t = lsp_groups(p, c, s);
    assert(t[18].0 == "LspCodeLens"@ && t[18].1.fg == Some(p.grey) && t[18].1.fmt == fmt_view(c.code_style.comments));
}

/// The user's code styles reach the mini (first part) groups: each group that shows
/// functions, keywords, strings, variables or comments carries the
/// attribute list configured for that class.
pub proof fn law_code_styles_in_mini_groups_first(p: ColorPalette, c: OneDarkConfig)
    ensures
        holds_styled_group(mini_groups_first(p, c), "MiniDepsPlaceholder"@, p.grey, fmt_view(c.code_style.comments)),
{
    let t = mini_groups_first(p, c);
    assert(t[17].0 == "MiniDepsPlaceholder"@ && t[17].1.fg == Some(p.grey) && t[17].1.fmt == fmt_view(c.code_style.comments));
}

/// The user's code styles reach the mini (second part) groups: each group that shows
/// functions, keywords, strings, variables or comments carries the
/// attribute list configured for that class.
pub proof fn law_code_styles_in_mini_groups_second(p: ColorPalette, c: OneDarkConfig)
    ensures
        holds_styled_group(mini_groups_second(p, c), "MiniStarterInactive"@, p.grey, fmt_view(c.code_style.comments)),
{
    let t = mini_groups_second(p, c);
    assert(t[26].0 == "MiniStarterInactive"@ && t[26].1.fg == Some(p.grey) && t[26].1.fmt == fmt_view(c.code_style.comments));
}

/// The user's code styles reach the PHP groups: each group that shows
/// functions, keywords, strings, variables or comments carries the
/// attribute list configured for that class.
pub proof fn law_code_styles_in_php_groups(p: ColorPalette, c: OneDarkConfig)
    ensures
        holds_styled_group(php_groups(p, c), "phpFunctions"@, p.fg, fmt_view(c.code_style.functions)),
        holds_styled_group(php_groups(p, c), "phpVarSelector"@, p.orange, fmt_view(c.code_style.variables)),
        holds_styled_group(php_groups(p, c), "phpIdentifier"@, p.orange, fmt_view(c.code_style.variables)),
        holds_styled_group(php_groups(p, c), "phpSCKeyword"@, p.purple, fmt_view(c.code_style.keywords)),
        holds_styled_group(php_groups(p, c), "phpFCKeyword"@, p.purple, fmt_view(c.code_style.keywords)),
{
    let t = php_groups(p, c);
    assert(t[0].0 == "phpFunctions"@ && t[0].1.fg == Some(p.fg) && t[0].1.fmt == fmt_view(c.code_style.functions));
    assert(t[5].0 == "phpVarSelector"@ && t[5].1.fg == Some(p.orange) && t[5].1.fmt == fmt_view(c.code_style.variables));
    assert(t[6].0 == "phpIdentifier"@ && t[6].1.fg == Some(p.orange) && t[6].1.fmt == fmt_view(c.code_style.variables));
    assert(t[11].0 == "phpSCKeyword"@ && t[11].1.fg == Some(p.purple) && t[11].1.fmt == fmt_view(c.code_style.keywords));
    assert(t[12].0 == "phpFCKeyword"@ && t[12].1.fg == Some(p.purple) && t[12].1.fmt == fmt_view(c.code_style.keywords));
}

/// The user's code styles reach the Scala groups: each group that shows
/// functions, keywords, strings, variables or comments carries the
/// attribute list configured for that class.
pub proof fn law_code_styles_in_scala_groups(p: ColorPalette, c: OneDarkConfig)
    ensures
        holds_styled_group(scala_groups(p, c), "scalaKeywordModifier"@, p.red, fmt_view(c.code_style.keywords)),
{
    let t = scala_groups(p, c);
    assert(t[5].0 == "scalaKeywordModifier"@ && t[5].1.fg == Some(p.red) && t[5].1.fmt == fmt_view(c.code_style.keywords));
}

/// The user's code styles reach the TeX groups: each group that shows
/// functions, keywords, strings, variables or comments carries the
/// attribute list configured for that class.
pub proof fn law_code_styles_in_tex_groups(p: ColorPalette, c: OneDarkConfig)
    ensures
        holds_styled_group(tex_groups(p, c), "latexTSFuncMacro"@, p.fg, fmt_view(c.code_style.functions)),
{
    let t = tex_groups(p, c);
    assert(t[1].0 == "latexTSFuncMacro"@ && t[1].1.fg == Some(p.fg) && t[1].1.fmt == fmt_view(c.code_style.functions));
}

/// The user's code styles reach the Vim script groups: each group that shows
/// functions, keywords, strings, variables or comments carries the
/// attribute list configured for that class.
pub proof fn law_code_styles_in_vim_groups(p: ColorPalette, c: OneDarkConfig)
    ensures
        holds_styled_group(vim_groups(p, c), "vimVar"@, p.fg, fmt_view(c.code_style.variables)),
        holds_styled_group(vim_groups(p, c), "vimCommentTitle"@, p.light_grey, fmt_view(c.code_style.comments)),
{
    let t = vim_groups(p, c);
    assert(t[7].0 == "vimVar"@ && t[7].1.fg == Some(p.fg) && t[7].1.fmt == fmt_view(c.code_style.variables));
    assert(t[8].0 == "vimCommentTitle"@ && t[8].1.fg == Some(p.light_grey) && t[8].1.fmt == fmt_view(c.code_style.comments));
}

} // verus!
