use crate::anitable::AnimeData;
use vstd::prelude::*;

verus! {

/// Tab titles and the index of the tab shown.
pub struct TabsState {
    pub titles: Vec<String>,
    pub index: usize,
}

impl TabsState {
    pub open spec fn wf(&self) -> bool {
        0 < self.titles@.len() && self.index < self.titles@.len()
    }

    pub fn new(titles: Vec<String>, index: usize) -> (r: TabsState)
        ensures
            r.titles == titles,
            r.index == index,
    {
        TabsState { titles, index }
    }

    /// Moves to the next tab, from the last one to the first.
    pub fn next(&mut self)
        requires
            old(self).wf(),
        ensures
            final(self).wf(),
            final(self).titles == old(self).titles,
            final(self).index == (old(self).index + 1) % (old(self).titles@.len() as int),
    {
        let n = self.titles.len();
        self.index = (self.index + 1) % n;
    }

    /// Moves to the previous tab, from the first one to the last.
    pub fn previous(&mut self)
        requires
            old(self).wf(),
        ensures
            final(self).wf(),
            final(self).titles == old(self).titles,
            final(self).index == if old(self).index > 0 {
                old(self).index - 1
            } else {
                old(self).titles@.len() - 1
            },
    {
        if self.index > 0 {
            self.index -= 1;
        } else {
            self.index = self.titles.len() - 1;
        }
    }
}

/// The state of the schedule viewer: a tab per day of the week, the records
/// of the day shown, and a cursor over them.
pub struct App {
    pub tabs: TabsState,
    pub items: Vec<AnimeData>,
    pub selected: usize,
    pub should_quit: bool,
}

/// One line of the schedule table.
#[derive(Clone, Debug)]
pub struct TableRow {
    pub time: String,
    pub subject: String,
    pub genre: String,
    pub selected: bool,
}

/// How many records to scroll past so that the cursor stays in a table of
/// `height` lines, five of which are taken by its frame and header.
pub open spec fn spec_scroll_offset(height: u16, selected: usize) -> int {
    if height >= 5 && selected >= height - 5 {
        selected - (height - 5)
    } else {
        0
    }
}

/// `HHMM` shown as `HH:MM`; a text of fewer than two characters is shown as it is.
pub open spec fn spec_time_label(t: Seq<char>) -> Seq<char> {
    if t.len() >= 2 {
        t.subrange(0, 2) + seq![':'] + t.subrange(2, t.len() as int)
    } else {
        t
    }
}

pub fn scroll_offset(height: u16, selected: usize) -> (r: usize)
    ensures
        r == spec_scroll_offset(height, selected),
{
    if height >= 5 && selected >= (height - 5) as usize {
        selected - (height - 5) as usize
    } else {
        0
    }
}

pub fn time_label(time: &str) -> (r: String)
    ensures
        r@ == spec_time_label(time@),
{
    let n = time.unicode_len();
    if n < 2 {
        return String::from_str(time);
    }
    let mut r = String::from_str(time.substring_char(0, 2));
    r.append(":");
    r.append(time.substring_char(2, n));
    proof {
        reveal_strlit(":");
    }
    assert(r@ =~= spec_time_label(time@));
    r
}

impl App {
    pub open spec fn wf(&self) -> bool {
        self.tabs.wf() && (self.items@.len() == 0 || self.selected < self.items@.len())
    }

    /// A viewer with a tab per day, Sunday to Saturday, opened on the tab of the day
    /// that is `days_from_monday` days after a Monday.
    pub fn new(days_from_monday: u8) -> (r: App)
        ensures
            r.wf(),
            r.tabs.titles@.len() == 7,
            r.tabs.titles@[0]@ == "일"@,
            r.tabs.titles@[1]@ == "월"@,
            r.tabs.titles@[2]@ == "화"@,
            r.tabs.titles@[3]@ == "수"@,
            r.tabs.titles@[4]@ == "목"@,
            r.tabs.titles@[5]@ == "금"@,
            r.tabs.titles@[6]@ == "토"@,
            r.tabs.index == (days_from_monday as int + 1) % 7,
            r.items@.len() == 0,
            r.selected == 0,
            !r.should_quit,
    {
        let mut titles: Vec<String> = Vec::new();
        titles.push(String::from_str("일"));
        titles.push(String::from_str("월"));
        titles.push(String::from_str("화"));
        titles.push(String::from_str("수"));
        titles.push(String::from_str("목"));
        titles.push(String::from_str("금"));
        titles.push(String::from_str("토"));
        App {
            tabs: TabsState::new(titles, (days_from_monday as usize + 1) % 7),
            items: Vec::new(),
            selected: 0,
            should_quit: false,
        }
    }

    /// Shows `items` in place of the records shown, with the cursor on the first.
    pub fn set_items(&mut self, items: Vec<AnimeData>)
        ensures
            final(self).items == items,
            final(self).selected == 0,
            final(self).tabs == old(self).tabs,
            final(self).should_quit == old(self).should_quit,
    {
        self.selected = 0;
        self.items = items;
    }

    /// Handles a key: `q` asks to quit, `r` asks for the records of the
    /// current tab again (the result), any other key does nothing.
    pub fn on_key(&mut self, key: char) -> (refresh: bool)
        ensures
            refresh == (key == 'r'),
            final(self).should_quit == (old(self).should_quit || key == 'q'),
            final(self).tabs == old(self).tabs,
            final(self).items == old(self).items,
            final(self).selected == old(self).selected,
    {
        match key {
            'q' => {
                self.should_quit = true;
                false
            },
            'r' => true,
            _ => false,
        }
    }

    /// Moves to the next day's tab; its records are to be fetched next.
    pub fn on_next(&mut self)
        requires
            old(self).tabs.wf(),
        ensures
            final(self).tabs.wf(),
            final(self).tabs.titles == old(self).tabs.titles,
            final(self).tabs.index == (old(self).tabs.index + 1) % (
            old(self).tabs.titles@.len() as int),
            final(self).items == old(self).items,
            final(self).selected == old(self).selected,
            final(self).should_quit == old(self).should_quit,
    {
        self.tabs.next();
    }

    /// Moves to the previous day's tab; its records are to be fetched next.
    pub fn on_prev(&mut self)
        requires
            old(self).tabs.wf(),
        ensures
            final(self).tabs.wf(),
            final(self).tabs.titles == old(self).tabs.titles,
            final(self).tabs.index == if old(self).tabs.index > 0 {
                old(self).tabs.index - 1
            } else {
                old(self).tabs.titles@.len() - 1
            },
            final(self).items == old(self).items,
            final(self).selected == old(self).selected,
            final(self).should_quit == old(self).should_quit,
    {
        self.tabs.previous();
    }

    /// Moves the cursor up one record, from the first to the last; with no
    /// records, a cursor on the first line stays there.
    pub fn on_up(&mut self)
        ensures
            final(self).selected == if old(self).selected > 0 {
                old(self).selected - 1
            } else if old(self).items@.len() > 0 {
                old(self).items@.len() - 1
            } else {
                0
            },
            final(self).tabs == old(self).tabs,
            final(self).items == old(self).items,
            final(self).should_quit == old(self).should_quit,
    {
        if self.selected > 0 {
            self.selected -= 1;
        } else if self.items.len() > 0 {
            self.selected = self.items.len() - 1;
        } else {
            self.selected = 0;
        }
    }

    /// Moves the cursor down one record, from the last to the first.
    pub fn on_down(&mut self)
        ensures
            final(self).selected == if old(self).items@.len() == 0 || old(self).selected
                >= old(self).items@.len() - 1 {
                0
            } else {
                old(self).selected + 1
            },
            final(self).tabs == old(self).tabs,
            final(self).items == old(self).items,
            final(self).should_quit == old(self).should_quit,
    {
        if self.items.len() == 0 || self.selected >= self.items.len() - 1 {
            self.selected = 0;
        } else {
            self.selected += 1;
        }
    }

    /// The table lines for a table of `height` lines: the records from the
    /// scroll offset on, the one under the cursor marked.
    pub fn rows(&self, height: u16) -> (r: Vec<TableRow>)
        ensures
            ({
                let off = spec_scroll_offset(height, self.selected);
                &&& r@.len() == if off <= self.items@.len() {
                    self.items@.len() - off
                } else {
                    0
                }
                &&& forall|i: int|
                    #![trigger r@[i]]
                    0 <= i < r@.len() ==> {
                        let item = self.items@[off + i];
                        &&& r@[i].time@ == spec_time_label(item.time@)
                        &&& r@[i].subject@ == item.subject@
                        &&& r@[i].genre@ == item.genre@
                        &&& r@[i].selected == (off + i == self.selected)
                    }
            }),
    {
        let off = scroll_offset(height, self.selected);
        let mut r: Vec<TableRow> = Vec::new();
        let mut k: usize = off;
        while k < self.items.len()
            invariant
                off == spec_scroll_offset(height, self.selected),
                off <= k,
                k <= self.items@.len() || (k == off && r@.len() == 0),
                r@.len() == k - off,
                forall|i: int|
                    #![trigger r@[i]]
                    0 <= i < r@.len() ==> {
                        let item = self.items@[off + i];
                        &&& r@[i].time@ == spec_time_label(item.time@)
                        &&& r@[i].subject@ == item.subject@
                        &&& r@[i].genre@ == item.genre@
                        &&& r@[i].selected == (off + i == self.selected)
                    },
            decreases self.items@.len() - k,
        {
            let item = &self.items[k];
            let row = TableRow {
                time: time_label(item.time.as_str()),
                subject: item.subject.clone(),
                genre: item.genre.clone(),
                selected: k == self.selected,
            };
            r.push(row);
            k += 1;
        }
        r
    }
}

} // verus!
