//! Dashboards: who may see and change them, their widgets, and the default
//! dashboard every user starts with.
use vstd::prelude::*;
use crate::common::AppError;
use crate::analytics::models::{Dashboard, DashboardWidget, WidgetType, WidgetPosition, WidgetSize};
use crate::time::Timestamp;
use crate::text::own;

verus! {

/// A dashboard is seen by its owner, and by everyone when public.
pub open spec fn visible(owner: u128, is_public: bool, user: u128) -> bool {
    owner == user || is_public
}

/// The widgets other than those with identifier `id`.
pub open spec fn without_widget<C>(w: Seq<DashboardWidget<C>>, id: u128) -> Seq<DashboardWidget<C>> {
    w.filter(|x: DashboardWidget<C>| x.widget_id != id)
}

/// Some widget has identifier `id`.
pub open spec fn has_widget<C>(w: Seq<DashboardWidget<C>>, id: u128) -> bool {
    exists|k: int| 0 <= k < w.len() && (#[trigger] w[k]).widget_id == id
}

proof fn lemma_without_widget_absent<C>(w: Seq<DashboardWidget<C>>, id: u128)
    requires
        !has_widget(w, id),
    ensures
        without_widget(w, id) == w,
    decreases w.len(),
{
    reveal_with_fuel(Seq::filter, 1);
    if w.len() > 0 {
        assert(w[w.len() - 1] == w.last());
        assert(!has_widget(w.drop_last(), id)) by {
            if has_widget(w.drop_last(), id) {
                let k = choose|k: int| 0 <= k < w.drop_last().len() && (#[trigger] w.drop_last()[k]).widget_id == id;
                assert(w[k] == w.drop_last()[k]);
            }
        }
        lemma_without_widget_absent(w.drop_last(), id);
        assert(w.drop_last().push(w.last()) =~= w);
    }
}

/// Removing a widget just added, under an identifier that no other widget
/// had, gives back the dashboard's former widgets.
pub proof fn law_remove_undoes_add<C>(widgets: Seq<DashboardWidget<C>>, widget: DashboardWidget<C>)
    requires
        !has_widget(widgets, widget.widget_id),
    ensures
        without_widget(widgets.push(widget), widget.widget_id) == widgets,
{
    let s = widgets.push(widget);
    assert(s[widgets.len() as int] == widget);
    reveal_with_fuel(Seq::filter, 1);
    assert(s.drop_last() =~= widgets);
    lemma_without_widget_absent(widgets, widget.widget_id);
}

/// `r` is the error `Forbidden("Cannot modify dashboard")`.
pub open spec fn cannot_modify(r: Result<(), AppError>) -> bool {
    r matches Err(AppError::Forbidden(m)) && m@ == "Cannot modify dashboard"@
}

/// A configuration of string settings, as `(key, value)` pairs.
pub open spec fn settings_are(c: Vec<(String, String)>, s: Seq<(Seq<char>, Seq<char>)>) -> bool {
    &&& c@.len() == s.len()
    &&& forall|i: int| 0 <= i < s.len() ==> (#[trigger] c@[i]).0@ == s[i].0 && c@[i].1@ == s[i].1
}

/// A lookup of a dashboard that the user cannot see finds nothing.
pub fn visibility_outcome(owner: u128, is_public: bool, user_id: u128) -> (r: Result<(), AppError>)
    ensures
        visible(owner, is_public, user_id) ==> r is Ok,
        !visible(owner, is_public, user_id) ==> (r matches Err(AppError::NotFound(m)) && m@ == "Dashboard not found"@),
{
    if owner == user_id || is_public {
        Ok(())
    } else {
        Err(AppError::NotFound(own("Dashboard not found")))
    }
}

impl<C> Dashboard<C> {
    /// A new private, empty dashboard of `user_id`.
    pub fn create(dashboard_id: u128, user_id: u128, name: String, description: Option<String>, now: Timestamp) -> (d: Self)
        ensures
            d.dashboard_id == dashboard_id,
            d.user_id == user_id,
            d.name == name,
            d.description == description,
            d.widgets@.len() == 0,
            !d.is_public,
            d.created_at == now,
            d.updated_at == now,
    {
        Dashboard { dashboard_id, name, description, user_id, widgets: Vec::new(), is_public: false, created_at: now, updated_at: now }
    }

    /// Adds a widget; only the owner may.
    pub fn add_widget(&mut self, user_id: u128, widget: DashboardWidget<C>, now: Timestamp) -> (r: Result<(), AppError>)
        ensures
            old(self).user_id != user_id ==> cannot_modify(r) && final(self).widgets@ == old(self).widgets@
                && final(self).updated_at == old(self).updated_at,
            old(self).user_id == user_id ==> r is Ok && final(self).widgets@ == old(self).widgets@.push(widget)
                && final(self).updated_at == now,
            final(self).dashboard_id == old(self).dashboard_id,
            final(self).user_id == old(self).user_id,
            final(self).is_public == old(self).is_public,
    {
        if self.user_id != user_id {
            return Err(AppError::Forbidden(own("Cannot modify dashboard")));
        }
        self.widgets.push(widget);
        self.updated_at = now;
        Ok(())
    }

    /// Removes the widgets with identifier `widget_id`; only the owner may.
    pub fn remove_widget(&mut self, user_id: u128, widget_id: u128, now: Timestamp) -> (r: Result<(), AppError>)
        ensures
            old(self).user_id != user_id ==> cannot_modify(r) && final(self).widgets@ == old(self).widgets@
                && final(self).updated_at == old(self).updated_at,
            old(self).user_id == user_id ==> r is Ok && final(self).widgets@ == without_widget(old(self).widgets@, widget_id)
                && final(self).updated_at == now,
            final(self).dashboard_id == old(self).dashboard_id,
            final(self).user_id == old(self).user_id,
            final(self).is_public == old(self).is_public,
    {
        if self.user_id != user_id {
            return Err(AppError::Forbidden(own("Cannot modify dashboard")));
        }
        let ghost w0 = self.widgets@;
        let mut rest: Vec<DashboardWidget<C>> = Vec::new();
        std::mem::swap(&mut rest, &mut self.widgets);
        let n = rest.len();
        let mut taken: usize = 0;
        let mut kept: Vec<DashboardWidget<C>> = Vec::new();
        assert(w0.subrange(0, 0) =~= Seq::<DashboardWidget<C>>::empty());
        while rest.len() > 0
            invariant
                taken + rest@.len() == n,
                n == w0.len(),
                rest@ == w0.subrange(taken as int, n as int),
                kept@ == without_widget(w0.subrange(0, taken as int), widget_id),
            decreases rest.len(),
        {
            let x = rest.remove(0);
            proof {
                let sub = w0.subrange(0, taken + 1);
                assert(sub.drop_last() =~= w0.subrange(0, taken as int));
                assert(sub.last() == x);
                reveal_with_fuel(Seq::filter, 2);
            }
            if x.widget_id != widget_id {
                kept.push(x);
            }
            taken = taken + 1;
            proof {
                assert(rest@ =~= w0.subrange(taken as int, n as int));
            }
        }
        assert(w0.subrange(0, n as int) =~= w0);
        self.widgets = kept;
        self.updated_at = now;
        Ok(())
    }
}

fn setting(key: &str, value: &str) -> (p: (String, String))
    ensures
        p.0@ == key@ && p.1@ == value@,
{
    (own(key), own(value))
}

/// The dashboard a user starts with: total users, daily active users and
/// revenue by category, with the given identifiers.
pub fn get_default_dashboard(user_id: u128, dashboard_id: u128, widget_ids: (u128, u128, u128), now: Timestamp) -> (d: Dashboard<Vec<(String, String)>>)
    ensures
        d.dashboard_id == dashboard_id,
        d.user_id == user_id,
        d.name@ == "Default Dashboard"@,
        d.description matches Some(t) && t@ == "Default analytics dashboard"@,
        !d.is_public,
        d.created_at == now && d.updated_at == now,
        d.widgets@.len() == 3,
        d.widgets@[0].widget_id == widget_ids.0 && d.widgets@[0].widget_type == WidgetType::MetricCard
            && d.widgets@[0].title@ == "Total Users"@
            && settings_are(d.widgets@[0].configuration, seq![("metric"@, "total_users"@), ("format"@, "number"@)])
            && d.widgets@[0].position == (WidgetPosition { x: 0, y: 0 }) && d.widgets@[0].size == (WidgetSize { width: 4, height: 2 }),
        d.widgets@[1].widget_id == widget_ids.1 && d.widgets@[1].widget_type == WidgetType::LineChart
            && d.widgets@[1].title@ == "Daily Active Users"@
            && settings_are(d.widgets@[1].configuration, seq![("metric"@, "active_users_daily"@), ("time_range"@, "30d"@)])
            && d.widgets@[1].position == (WidgetPosition { x: 4, y: 0 }) && d.widgets@[1].size == (WidgetSize { width: 8, height: 4 }),
        d.widgets@[2].widget_id == widget_ids.2 && d.widgets@[2].widget_type == WidgetType::BarChart
            && d.widgets@[2].title@ == "Revenue by Category"@
            && settings_are(d.widgets@[2].configuration, seq![("metric"@, "revenue_by_category"@), ("time_range"@, "30d"@)])
            && d.widgets@[2].position == (WidgetPosition { x: 0, y: 4 }) && d.widgets@[2].size == (WidgetSize { width: 6, height: 4 }),
{
    let mut c0: Vec<(String, String)> = Vec::new();
    c0.push(setting("metric", "total_users"));
    c0.push(setting("format", "number"));
    let mut c1: Vec<(String, String)> = Vec::new();
    c1.push(setting("metric", "active_users_daily"));
    c1.push(setting("time_range", "30d"));
    let mut c2: Vec<(String, String)> = Vec::new();
    c2.push(setting("metric", "revenue_by_category"));
    c2.push(setting("time_range", "30d"));
    let mut widgets: Vec<DashboardWidget<Vec<(String, String)>>> = Vec::new();
    widgets.push(DashboardWidget {
        widget_id: widget_ids.0,
        widget_type: WidgetType::MetricCard,
        title: own("Total Users"),
        configuration: c0,
        position: WidgetPosition { x: 0, y: 0 },
        size: WidgetSize { width: 4, height: 2 },
    });
    widgets.push(DashboardWidget {
        widget_id: widget_ids.1,
        widget_type: WidgetType::LineChart,
        title: own("Daily Active Users"),
        configuration: c1,
        position: WidgetPosition { x: 4, y: 0 },
        size: WidgetSize { width: 8, height: 4 },
    });
    widgets.push(DashboardWidget {
        widget_id: widget_ids.2,
        widget_type: WidgetType::BarChart,
        title: own("Revenue by Category"),
        configuration: c2,
        position: WidgetPosition { x: 0, y: 4 },
        size: WidgetSize { width: 6, height: 4 },
    });
    Dashboard {
        dashboard_id,
        name: own("Default Dashboard"),
        description: Some(own("Default analytics dashboard")),
        user_id,
        widgets,
        is_public: false,
        created_at: now,
        updated_at: now,
    }
}

} // verus!
