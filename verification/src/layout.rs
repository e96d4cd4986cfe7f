//! The column layout of a slide, and the commands that change it.
use crate::error::BuildError;
use crate::error::BuildErrorView;
use vstd::prelude::*;

verus! {

/// Where the builder stands with respect to columns.
#[derive(Clone, Copy, Debug, PartialEq, Eq)]
pub enum LayoutState {
    /// No column layout.
    Default,
    /// A layout of `columns_count` columns, none of them entered.
    InLayout { columns_count: usize },
    /// Inside column `column` of `columns_count`.
    InColumn { column: usize, columns_count: usize },
}

impl LayoutState {
    /// Inside a column, the column is one of the layout's.
    pub open spec fn valid(self) -> bool {
        match self {
            LayoutState::InColumn { column, columns_count } => column < columns_count,
            _ => true,
        }
    }

    /// The state after the command to enter `column`: there has to be a layout,
    /// the column must not be the one already entered, and it has to be one of
    /// the layout's.
    pub open spec fn entered(self, column: usize) -> Result<LayoutState, BuildErrorView> {
        match self {
            LayoutState::Default => Err(BuildErrorView::NoLayout),
            LayoutState::InLayout { columns_count } => if column >= columns_count {
                Err(BuildErrorView::ColumnIndexTooLarge)
            } else {
                Ok(LayoutState::InColumn { column, columns_count })
            },
            LayoutState::InColumn { column: current, columns_count } => if current == column {
                Err(BuildErrorView::AlreadyInColumn)
            } else if column >= columns_count {
                Err(BuildErrorView::ColumnIndexTooLarge)
            } else {
                Ok(LayoutState::InColumn { column, columns_count })
            },
        }
    }

    /// The state after the command to enter `column`.
    pub fn enter_column(self, column: usize) -> (entered: Result<LayoutState, BuildError>)
        ensures
            match entered {
                Ok(state) => self.entered(column) == Ok::<LayoutState, BuildErrorView>(state),
                Err(error) => self.entered(column) == Err::<LayoutState, BuildErrorView>(
                    error.deep_view(),
                ),
            },
            self.valid() && entered is Ok ==> entered.unwrap().valid(),
    {
        let (current_column, columns_count) = match self {
            LayoutState::InColumn { column, columns_count } => (Some(column), columns_count),
            LayoutState::InLayout { columns_count } => (None, columns_count),
            LayoutState::Default => {
                return Err(BuildError::NoLayout);
            },
        };
        if let Some(current) = current_column {
            if current == column {
                return Err(BuildError::AlreadyInColumn);
            }
        }
        if column >= columns_count {
            return Err(BuildError::ColumnIndexTooLarge);
        }
        Ok(LayoutState::InColumn { column, columns_count })
    }
}

/// What is wrong with a list of column widths: it is empty, or one of the
/// widths is zero.
pub open spec fn layout_problem(columns: Seq<u8>) -> Option<Seq<char>> {
    if columns.len() == 0 {
        Some("need at least one column"@)
    } else if exists|i: int| 0 <= i < columns.len() && columns[i] == 0 {
        Some("can't have zero sized columns"@)
    } else {
        None
    }
}

} // verus!
